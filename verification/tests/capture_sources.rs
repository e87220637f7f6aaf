use hipocast::capture::{
    browser_id_for_uuid, browser_stream_id, browser_window_label, capture_sources,
    fit_frame_to_canvas, hls_path_for, pack_frame_rows, parse_capture_id, sanitize_stream_id,
    window_capture_id, window_label_for_uuid, CaptureIdError, CaptureTarget, FrameData,
};
use hipocast::text::IntParseFailure;

#[test]
fn sources_list_monitors_then_titled_windows() {
    let monitors = vec![0usize, 1];
    let windows = vec![
        (65802usize, "Notepad".to_string()),
        (7usize, String::new()),
        (42usize, "Browser".to_string()),
    ];
    let sources = capture_sources(&monitors, &windows);
    let got: Vec<(String, String, String)> = sources
        .iter()
        .map(|s| (s.id.clone(), s.title.clone(), s.source_type.clone()))
        .collect();
    let want = vec![
        ("monitor:0", "Monitor 0", "monitor"),
        ("monitor:1", "Monitor 1", "monitor"),
        ("window:65802", "Notepad", "window"),
        ("window:42", "Browser", "window"),
    ];
    assert_eq!(got.len(), want.len());
    for (g, w) in got.iter().zip(want.iter()) {
        assert_eq!((g.0.as_str(), g.1.as_str(), g.2.as_str()), *w);
    }
}

#[test]
fn no_sources_when_nothing_is_there() {
    assert!(capture_sources(&vec![], &vec![(3, String::new())]).is_empty());
}

#[test]
fn capture_ids_are_read() {
    assert_eq!(parse_capture_id("monitor:1"), Ok(CaptureTarget::Monitor(1)));
    assert_eq!(parse_capture_id("window:65802"), Ok(CaptureTarget::Window(65802)));
    assert_eq!(parse_capture_id("window:+5"), Ok(CaptureTarget::Window(5)));
}

#[test]
fn capture_id_errors() {
    assert_eq!(parse_capture_id("screen:1"), Err(CaptureIdError::UnknownKind));
    assert_eq!(parse_capture_id(""), Err(CaptureIdError::UnknownKind));
    assert_eq!(
        parse_capture_id("monitor:"),
        Err(CaptureIdError::BadNumber(IntParseFailure::Empty))
    );
    assert_eq!(
        parse_capture_id("window:12a"),
        Err(CaptureIdError::BadNumber(IntParseFailure::InvalidDigit))
    );
    assert_eq!(
        parse_capture_id("window:+"),
        Err(CaptureIdError::BadNumber(IntParseFailure::InvalidDigit))
    );
    assert_eq!(
        parse_capture_id("monitor:99999999999999999999999"),
        Err(CaptureIdError::BadNumber(IntParseFailure::PosOverflow))
    );
}

#[test]
fn capture_id_error_messages() {
    assert_eq!(CaptureIdError::UnknownKind.message("Invalid ID format"), "Invalid ID format");
    assert_eq!(
        CaptureIdError::BadNumber(IntParseFailure::InvalidDigit).message("x"),
        "invalid digit found in string"
    );
    assert_eq!(
        CaptureIdError::BadNumber(IntParseFailure::Empty).message("x"),
        "cannot parse integer from empty string"
    );
}

#[test]
fn window_ids_read_back() {
    for hwnd in [0usize, 9, 10, 65802, usize::MAX] {
        let id = window_capture_id(hwnd);
        assert_eq!(id, format!("window:{}", hwnd));
        assert_eq!(parse_capture_id(&id), Ok(CaptureTarget::Window(hwnd)));
    }
}

#[test]
fn padded_rows_are_packed() {
    // 2x2 frame, rows padded from 8 to 10 bytes.
    let data: Vec<u8> = (0u8..20).collect();
    let packed = pack_frame_rows(&data, 2, 2).unwrap();
    assert_eq!(packed, vec![0, 1, 2, 3, 4, 5, 6, 7, 10, 11, 12, 13, 14, 15, 16, 17]);
}

#[test]
fn tight_frames_pass_unchanged() {
    let data: Vec<u8> = (0u8..24).collect();
    assert_eq!(pack_frame_rows(&data, 3, 2), Some(data.clone()));
}

#[test]
fn short_frames_are_rejected() {
    let data = vec![0u8; 15];
    assert_eq!(pack_frame_rows(&data, 2, 2), None);
}

#[test]
fn frames_of_canvas_size_pass_unchanged() {
    let f = FrameData { data: vec![1, 2, 3, 4], width: 1, height: 1 };
    let r = fit_frame_to_canvas(f, 1, 1).unwrap();
    assert_eq!((r.data, r.width, r.height), (vec![1, 2, 3, 4], 1, 1));
}

#[test]
fn frames_are_scaled_to_the_canvas() {
    let f = FrameData { data: vec![9u8; 2 * 2 * 4], width: 2, height: 2 };
    let r = fit_frame_to_canvas(f, 4, 2).unwrap();
    assert_eq!((r.width, r.height), (4, 2));
    assert_eq!(r.data, vec![9u8; 4 * 2 * 4]);
}

#[test]
fn unreadable_frames_are_dropped() {
    let f = FrameData { data: vec![0u8; 3], width: 2, height: 2 };
    assert!(fit_frame_to_canvas(f, 4, 4).is_none());
}

#[test]
fn stream_ids_are_sanitized() {
    assert_eq!(sanitize_stream_id("window:65802"), "window_65802");
    assert_eq!(sanitize_stream_id("a:b:c"), "a_b_c");
    assert_eq!(sanitize_stream_id(&sanitize_stream_id("a::b")), "a__b");
    assert_eq!(hls_path_for("monitor:0"), "/streams/monitor_0/monitor_0.m3u8");
}

#[test]
fn browser_ids() {
    assert_eq!(browser_stream_id(Some("mine".to_string())), "mine");
    let id = browser_stream_id(None);
    assert_eq!(id.len(), 44);
    assert!(id.starts_with("browser_"));
    assert_ne!(id, browser_stream_id(None));
    let label = browser_window_label();
    assert_eq!(label.len(), 43);
    assert!(label.starts_with("source_"));
    assert_eq!(&label[15..16], "-");
}

#[test]
fn browser_names_from_a_uuid() {
    let u = "67e55044-10b1-426f-9247-bb680e5fe0c8";
    assert_eq!(browser_id_for_uuid(u), "browser_67e55044-10b1-426f-9247-bb680e5fe0c8");
    assert_eq!(window_label_for_uuid(u), "source_67e55044-10b1-426f-9247-bb680e5fe0c8");
    let id = browser_stream_id(None);
    let hyphens: Vec<usize> = id.match_indices('-').map(|(i, _)| i).collect();
    assert_eq!(hyphens, vec![16, 21, 26, 31]);
}
