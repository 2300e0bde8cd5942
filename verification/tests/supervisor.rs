use stremio_service::config::ServerConfig;
use stremio_service::probe::{SettingsData, SettingsError};
use stremio_service::supervisor::{
    ProbeOutcome, ProcessHandle, Server, SpawnOutcome, StartError, StartPlan,
};

fn is_sync<T: Sync>() {}
fn is_send<T: Send>() {}

#[test]
fn test_server_sync_and_send() {
    is_sync::<Server>();
    is_send::<Server>();
}

fn test_config() -> ServerConfig {
    ServerConfig {
        server: "/opt/stremio/server.js".to_string(),
        node: "/opt/stremio/stremio-runtime".to_string(),
        ffmpeg: "/opt/stremio/ffmpeg".to_string(),
        ffprobe: "/opt/stremio/ffprobe".to_string(),
        no_cors: false,
    }
}

fn settings(version: &str, base_url: &str) -> SettingsData {
    SettingsData {
        version: version.to_string(),
        base_url: base_url.to_string(),
    }
}

fn ready_outcome(pid: u64, version: &str, base_url: &str) -> SpawnOutcome {
    SpawnOutcome::Spawned {
        handle: ProcessHandle { pid },
        probe: ProbeOutcome::Settings(Ok(settings(version, base_url))),
    }
}

#[test]
fn start_spawns_once_and_is_idempotent() {
    let mut server = Server::new(test_config());
    assert!(matches!(server.begin_start(), StartPlan::NeedsSpawn));

    let done = server.finish_start(ready_outcome(41, "1.2.3", "http://127.0.0.1:9000"));
    assert!(done.kill.is_none());
    let info = done.result.expect("start must succeed");
    assert_eq!(info.version, "1.2.3");
    assert_eq!(info.base_url, "http://127.0.0.1:9000");

    // Any later start request observes the running server and asks for no
    // second spawn: all serialized calls return the same snapshot.
    match server.begin_start() {
        StartPlan::AlreadyRunning(again) => {
            assert_eq!(again.version, info.version);
            assert_eq!(again.base_url, info.base_url);
        }
        StartPlan::NeedsSpawn => panic!("a second spawn was requested"),
    }
}

#[test]
fn stop_on_stopped_is_noop() {
    let mut server = Server::new(test_config());
    let outcome = server.stop();
    assert!(!outcome.was_running);
    assert!(outcome.kill.is_none());
}

#[test]
fn stop_detaches_running_process() {
    let mut server = Server::new(test_config());
    server
        .finish_start(ready_outcome(42, "1.2.3", "http://127.0.0.1:9000"))
        .result
        .expect("start must succeed");
    let outcome = server.stop();
    assert!(outcome.was_running);
    assert_eq!(outcome.kill, Some(ProcessHandle { pid: 42 }));
    assert!(server.status(true).is_none());
}

#[test]
fn restart_attempts_start_even_after_stop_error() {
    let mut server = Server::new(test_config());
    server
        .finish_start(ready_outcome(43, "1.2.3", "http://127.0.0.1:9000"))
        .result
        .expect("start must succeed");

    // The stop step hands the process back; pretend the kill then fails.
    // The supervisor still claims Stopped, so the restart's start step is
    // attempted regardless.
    let outcome = server.stop();
    assert!(outcome.was_running);
    assert!(matches!(server.begin_start(), StartPlan::NeedsSpawn));
    let done = server.finish_start(ready_outcome(44, "1.2.4", "http://127.0.0.1:9001"));
    let info = done.result.expect("restart must reach a fresh start");
    assert_eq!(info.version, "1.2.4");
}

#[test]
fn status_reports_probe_values_while_alive() {
    let mut server = Server::new(test_config());
    server
        .finish_start(ready_outcome(45, "4.20.1", "http://127.0.0.1:11470"))
        .result
        .expect("start must succeed");
    let info = server.status(true).expect("running server must report status");
    assert_eq!(info.version, "4.20.1");
    assert_eq!(info.base_url, "http://127.0.0.1:11470");
    assert_eq!(info.config.server, "/opt/stremio/server.js");
}

#[test]
fn unexpected_exit_is_detected_and_start_spawns_fresh() {
    let mut server = Server::new(test_config());
    server
        .finish_start(ready_outcome(46, "1.2.3", "http://127.0.0.1:9000"))
        .result
        .expect("start must succeed");

    // The process died behind the supervisor's back: the liveness check
    // fails, the next status call reports None, and a new start spawns.
    assert!(server.status(false).is_none());
    assert!(server.status(true).is_none());
    assert!(matches!(server.begin_start(), StartPlan::NeedsSpawn));
    let done = server.finish_start(ready_outcome(47, "1.2.3", "http://127.0.0.1:9000"));
    assert!(done.result.is_ok());
}

#[test]
fn spawn_failure_leaves_supervisor_stopped() {
    let mut server = Server::new(test_config());
    let done = server.finish_start(SpawnOutcome::Failed);
    assert_eq!(done.result.unwrap_err(), StartError::SpawnFailed);
    assert!(done.kill.is_none());
    assert!(matches!(server.begin_start(), StartPlan::NeedsSpawn));
}

#[test]
fn missing_endpoint_fails_with_not_ready_and_kills() {
    let mut server = Server::new(test_config());
    let done = server.finish_start(SpawnOutcome::Spawned {
        handle: ProcessHandle { pid: 48 },
        probe: ProbeOutcome::NoEndpoint,
    });
    assert_eq!(done.result.unwrap_err(), StartError::NotReady);
    // The spawned process must not be leaked: it is handed back to be
    // killed, and nothing stays attached.
    assert_eq!(done.kill, Some(ProcessHandle { pid: 48 }));
    assert!(server.status(true).is_none());
}

#[test]
fn settings_failure_fails_start_and_kills() {
    let mut server = Server::new(test_config());
    let done = server.finish_start(SpawnOutcome::Spawned {
        handle: ProcessHandle { pid: 49 },
        probe: ProbeOutcome::Settings(Err(SettingsError::ShapeMismatch)),
    });
    assert_eq!(
        done.result.unwrap_err(),
        StartError::Settings(SettingsError::ShapeMismatch)
    );
    assert_eq!(done.kill, Some(ProcessHandle { pid: 49 }));
    assert!(server.status(true).is_none());
}

#[test]
fn current_handle_follows_state() {
    let mut server = Server::new(test_config());
    assert!(server.current_handle().is_none());
    server
        .finish_start(ready_outcome(50, "1.2.3", "http://127.0.0.1:9000"))
        .result
        .expect("start must succeed");
    assert_eq!(server.current_handle(), Some(ProcessHandle { pid: 50 }));
    server.stop();
    assert!(server.current_handle().is_none());
}
