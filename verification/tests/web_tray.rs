use stremio_service::config::ServerConfig;
use stremio_service::supervisor::ServerInfo;
use stremio_service::tray::{menu_flags, MenuFlags, ServerAction, ServerTrayStatus, TrayStatus};
use stremio_service::web::{handle_stremio_protocol, stremio_web_url};

#[test]
fn stremio_links_open_the_addon_page() {
    let opened = handle_stremio_protocol("stremio://example.com/addon.txt")
        .expect("a stremio link must be handled");
    assert_eq!(
        opened,
        "https://web.stremio.com/#/addons?addon=https%3A%2F%2Fexample.com%2Faddon.txt"
    );
}

#[test]
fn other_links_are_left_alone() {
    assert!(handle_stremio_protocol("https://example.com").is_none());
    assert!(handle_stremio_protocol("").is_none());
    assert!(handle_stremio_protocol("stremio:/half").is_none());
}

#[test]
fn every_scheme_occurrence_is_rewritten() {
    let opened = handle_stremio_protocol("stremio://a?next=stremio://b").unwrap();
    assert_eq!(
        opened,
        "https://web.stremio.com/#/addons?addon=https%3A%2F%2Fa%3Fnext%3Dhttps%3A%2F%2Fb"
    );
}

#[test]
fn plain_web_url_has_no_query() {
    assert_eq!(stremio_web_url(None), "https://web.stremio.com");
    assert_eq!(
        stremio_web_url(Some("x y")),
        "https://web.stremio.com/#/addons?addon=x%20y"
    );
}

fn info(version: &str) -> ServerInfo {
    ServerInfo {
        config: ServerConfig {
            server: "s".to_string(),
            node: "n".to_string(),
            ffmpeg: "f".to_string(),
            ffprobe: "p".to_string(),
            no_cors: false,
        },
        version: version.to_string(),
        base_url: "http://127.0.0.1:9000".to_string(),
    }
}

fn flags_of(status: Option<ServerTrayStatus>) -> MenuFlags {
    menu_flags(&TrayStatus { server_js: status })
}

#[test]
fn menu_items_enable_only_consistent_actions() {
    let unknown = flags_of(None);
    assert!(!unknown.restart_enabled && !unknown.stop_enabled && !unknown.start_enabled);

    let stopped = flags_of(Some(ServerTrayStatus::Stopped));
    assert!(stopped.restart_enabled && !stopped.stop_enabled && stopped.start_enabled);

    let restarting = flags_of(Some(ServerTrayStatus::Restarting));
    assert!(!restarting.restart_enabled && !restarting.stop_enabled && !restarting.start_enabled);

    let running = flags_of(Some(ServerTrayStatus::Running { info: info("1.2.3") }));
    assert!(running.restart_enabled && running.stop_enabled && !running.start_enabled);
}

#[test]
fn status_labels_render_the_state() {
    assert_eq!(ServerTrayStatus::Stopped.status_label(), "Server is not running");
    assert_eq!(ServerTrayStatus::Restarting.status_label(), "Server is restarting");
    assert_eq!(
        ServerTrayStatus::Running { info: info("4.20.1") }.status_label(),
        "Server v4.20.1 is running"
    );
}

#[test]
fn menu_ids_name_the_actions() {
    assert_eq!(ServerAction::Start.menu_id(), "start server");
    assert_eq!(ServerAction::Stop.menu_id(), "stop server");
    assert_eq!(ServerAction::Restart.menu_id(), "restart server");
}

#[test]
fn default_tray_status_knows_nothing() {
    let status: TrayStatus = Default::default();
    assert!(status.server_js.is_none());
}
