use hipocast::db::DbStream;
use hipocast::state::{build_status_response, find_stream, new_running_stream};

fn stored(id: &str, status: &str) -> DbStream {
    DbStream {
        id: id.to_string(),
        title: format!("Title {}", id),
        status: status.to_string(),
        hls_path: format!("/streams/{}/{}.m3u8", id, id),
        created_at: "2024-01-01T00:00:00Z".to_string(),
        source_type: "window".to_string(),
        source_url: None,
    }
}

#[test]
fn status_lists_every_stream_with_its_url() {
    let streams = vec![stored("a", "running"), stored("b", "stopped"), stored("c", "running")];
    let r = build_status_response(&streams, 8080);
    assert_eq!(r.active, 2);
    assert_eq!(r.streams.len(), 3);
    assert_eq!(r.streams[0].id, "a");
    assert_eq!(r.streams[0].title, "Title a");
    assert_eq!(r.streams[1].status, "stopped");
    assert_eq!(r.streams[2].hls_path, "http://localhost:8080/streams/c/c.m3u8");
}

#[test]
fn status_of_no_streams() {
    let r = build_status_response(&vec![], 1);
    assert_eq!(r.active, 0);
    assert!(r.streams.is_empty());
}

#[test]
fn active_streams_never_exceed_streams() {
    let streams = vec![stored("a", "running"), stored("b", "Running"), stored("c", "error")];
    let r = build_status_response(&streams, 80);
    assert_eq!(r.active, 1);
    assert!(r.active <= r.streams.len());
}

#[test]
fn streams_are_found_by_id() {
    let mut second = stored("b", "stopped");
    second.source_url = Some("https://example.com".to_string());
    let streams = vec![stored("a", "running"), second, stored("b", "running")];
    let s = find_stream(&streams, "b").unwrap();
    assert_eq!(s.status, "stopped");
    assert_eq!(s.source_url.as_deref(), Some("https://example.com"));
    assert_eq!(find_stream(&streams, "z").unwrap_err(), "Stream not found");
}

#[test]
fn new_streams_are_running_and_reported() {
    let s = new_running_stream("window:42", "Notepad", "2024-05-01", "window", None);
    assert_eq!(s.id, "window:42");
    assert_eq!(s.status, "running");
    assert_eq!(s.hls_path, "/streams/window_42/window_42.m3u8");
    assert_eq!(s.source_type, "window");
    assert!(s.source_url.is_none());
    let r = build_status_response(&vec![s], 9000);
    assert_eq!(r.streams[0].hls_path, "http://localhost:9000/streams/window_42/window_42.m3u8");
    assert_eq!(r.active, 1);
}
