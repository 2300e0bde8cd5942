use stremio_service::config::{
    ffmpeg_bin, ffprobe_bin, node_bin, ConfigError, FilePresence, ServerConfig,
};
use stremio_service::launcher::build_command;
use stremio_service::util::{join_current_exe_dir, join_path};

#[test]
fn binary_names_follow_the_operating_system() {
    assert_eq!(node_bin("linux"), Ok("stremio-runtime"));
    assert_eq!(node_bin("macos"), Ok("stremio-runtime"));
    assert_eq!(node_bin("windows"), Ok("stremio-runtime.exe"));
    assert_eq!(node_bin("freebsd"), Err(ConfigError::UnsupportedOs));
    assert_eq!(ffmpeg_bin("linux"), Ok("ffmpeg"));
    assert_eq!(ffmpeg_bin("windows"), Ok("ffmpeg.exe"));
    assert_eq!(ffprobe_bin("macos"), Ok("ffprobe"));
    assert_eq!(ffprobe_bin("windows"), Ok("ffprobe.exe"));
    assert_eq!(ffprobe_bin("haiku"), Err(ConfigError::UnsupportedOs));
}

#[test]
fn candidate_paths_are_joined_from_the_directory() {
    let config = ServerConfig::new("/opt/stremio", "linux", true, false).unwrap();
    assert_eq!(config.server, "/opt/stremio/server.js");
    assert_eq!(config.node, "/opt/stremio/stremio-runtime");
    assert_eq!(config.ffmpeg, "/opt/stremio/ffmpeg");
    assert_eq!(config.ffprobe, "/opt/stremio/ffprobe");
    assert!(!config.no_cors);
}

#[test]
fn missing_directory_and_unknown_os_are_rejected() {
    assert_eq!(
        ServerConfig::new("/nowhere", "linux", false, false).unwrap_err(),
        ConfigError::NotADirectory
    );
    assert_eq!(
        ServerConfig::new("/opt/stremio", "plan9", true, false).unwrap_err(),
        ConfigError::UnsupportedOs
    );
}

#[test]
fn the_first_missing_file_decides_the_error() {
    let config = ServerConfig::new("/opt/stremio", "linux", true, false).unwrap();
    let err = config
        .confirm_files(FilePresence { server: true, node: false, ffmpeg: false, ffprobe: true })
        .unwrap_err();
    assert_eq!(err, ConfigError::FileMissing { path: "/opt/stremio/stremio-runtime".to_string() });

    let config = ServerConfig::new("/opt/stremio", "linux", true, false).unwrap();
    let confirmed = config
        .confirm_files(FilePresence { server: true, node: true, ffmpeg: true, ffprobe: true })
        .unwrap();
    assert_eq!(confirmed.server, "/opt/stremio/server.js");
}

#[test]
fn command_is_built_from_the_configuration() {
    let config = ServerConfig::new("/opt/stremio", "linux", true, false).unwrap();
    let command = build_command(&config, false);
    assert_eq!(command.program, "/opt/stremio/stremio-runtime");
    assert_eq!(command.args, vec!["/opt/stremio/server.js".to_string()]);
    assert_eq!(
        command.env,
        vec![
            ("FFMPEG_BIN".to_string(), "/opt/stremio/ffmpeg".to_string()),
            ("FFPROBE_BIN".to_string(), "/opt/stremio/ffprobe".to_string()),
        ]
    );
    assert!(!command.hide_console);
}

#[test]
fn cors_flag_and_console_flag_are_reflected() {
    let config = ServerConfig::new("c:/stremio", "windows", true, true).unwrap();
    let command = build_command(&config, true);
    assert_eq!(command.program, "c:/stremio/stremio-runtime.exe");
    assert_eq!(command.env.len(), 3);
    assert_eq!(command.env[2], ("NO_CORS".to_string(), "1".to_string()));
    assert!(command.hide_console);
}

#[test]
fn paths_join_with_one_separator() {
    assert_eq!(join_path("/opt/stremio", "server.js"), "/opt/stremio/server.js");
    assert_eq!(join_current_exe_dir("/usr/lib/app", "updater"), "/usr/lib/app/updater");
}
