//! End-to-end walks through one start sequence, with the outside world
//! (process output, HTTP answer) scripted.

use stremio_service::config::ServerConfig;
use stremio_service::probe::{evaluate_response, settings_url};
use stremio_service::supervisor::{
    ProbeOutcome, ProcessHandle, Server, SpawnOutcome, StartError, StartPlan,
};
use stremio_service::watcher::EndpointWatcher;

fn test_config() -> ServerConfig {
    ServerConfig {
        server: "/opt/stremio/server.js".to_string(),
        node: "/opt/stremio/stremio-runtime".to_string(),
        ffmpeg: "/opt/stremio/ffmpeg".to_string(),
        ffprobe: "/opt/stremio/ffprobe".to_string(),
        no_cors: false,
    }
}

#[test]
fn a_ready_server_is_started_and_reported() {
    let mut server = Server::new(test_config());
    assert!(matches!(server.begin_start(), StartPlan::NeedsSpawn));

    // The spawned process chats, then announces its endpoint.
    let mut watcher = EndpointWatcher::new();
    assert!(!watcher.on_line("hls executables located"));
    assert!(watcher.on_line("EngineFS server started at http://127.0.0.1:9000"));
    let base = watcher.discovered().expect("the sentinel was printed");

    // The settings probe against the discovered endpoint.
    assert_eq!(settings_url(&base), "http://127.0.0.1:9000/settings");
    let body = r#"{"values":{"serverVersion":"1.2.3"},"baseUrl":"http://127.0.0.1:9000"}"#;
    let data = evaluate_response(200, body).expect("the documented body must parse");

    let done = server.finish_start(SpawnOutcome::Spawned {
        handle: ProcessHandle { pid: 7 },
        probe: ProbeOutcome::Settings(Ok(data)),
    });
    assert!(done.kill.is_none());
    let info = done.result.expect("the start must succeed");
    assert_eq!(info.version, "1.2.3");
    assert_eq!(info.base_url, "http://127.0.0.1:9000");

    let snapshot = server.status(true).expect("the server is alive");
    assert_eq!(snapshot.version, "1.2.3");
    assert_eq!(snapshot.base_url, "http://127.0.0.1:9000");
}

#[test]
fn a_server_that_never_announces_fails_with_not_ready() {
    let mut server = Server::new(test_config());
    assert!(matches!(server.begin_start(), StartPlan::NeedsSpawn));

    // The process prints, but no line is a valid sentinel; the grace
    // window elapses with nothing discovered.
    let mut watcher = EndpointWatcher::new();
    assert!(!watcher.on_line("warming up"));
    assert!(!watcher.on_line("EngineFS server started at"));
    assert!(!watcher.on_line("EngineFS server started at %%%"));
    assert!(watcher.discovered().is_none());

    let done = server.finish_start(SpawnOutcome::Spawned {
        handle: ProcessHandle { pid: 8 },
        probe: ProbeOutcome::NoEndpoint,
    });
    assert_eq!(done.result.unwrap_err(), StartError::NotReady);
    // The spawned process is handed back to be killed, and nothing stays
    // attached: the next status query reports no server.
    assert_eq!(done.kill, Some(ProcessHandle { pid: 8 }));
    assert!(server.status(true).is_none());
    assert!(server.current_handle().is_none());
}
