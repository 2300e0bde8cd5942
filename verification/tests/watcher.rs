use stremio_service::watcher::EndpointWatcher;

#[test]
fn sentinel_line_publishes_normalized_url() {
    let mut watcher = EndpointWatcher::new();
    assert!(watcher.discovered().is_none());
    let published = watcher.on_line("EngineFS server started at http://127.0.0.1:9000");
    assert!(published);
    // The URL is really parsed, not echoed: the parser serializes it with
    // the path slash it normalizes in.
    assert_eq!(watcher.discovered().as_deref(), Some("http://127.0.0.1:9000/"));
}

#[test]
fn malformed_sentinel_lines_publish_nothing() {
    let mut watcher = EndpointWatcher::new();
    // Missing URL entirely (no prefix match without the final space).
    assert!(!watcher.on_line("EngineFS server started at"));
    // Prefix present but nothing behind it.
    assert!(!watcher.on_line("EngineFS server started at "));
    // Prefix present but not an absolute URL.
    assert!(!watcher.on_line("EngineFS server started at not a url"));
    // An unrelated log line.
    assert!(!watcher.on_line("hls executables located"));
    assert!(watcher.discovered().is_none());

    // The watcher kept reading: a valid line afterwards still publishes.
    assert!(watcher.on_line("EngineFS server started at http://127.0.0.1:11470"));
    assert_eq!(
        watcher.discovered().as_deref(),
        Some("http://127.0.0.1:11470/")
    );
}

#[test]
fn first_match_wins() {
    let mut watcher = EndpointWatcher::new();
    assert!(watcher.on_line("EngineFS server started at http://127.0.0.1:9000"));
    // A second announcement is ignored, whatever it says.
    assert!(!watcher.on_line("EngineFS server started at http://10.0.0.1:7000"));
    assert_eq!(watcher.discovered().as_deref(), Some("http://127.0.0.1:9000/"));
}
