use hipocast::audio_capture::{
    bytes_per_audio_frame, file_name_of_path, packet_bytes, packet_is_silent, session_display_name,
    session_is_listed,
};
use hipocast::devices::{audio_devices_from_listing, parse_dshow_audio_devices};

const LISTING: &str = "ffmpeg version 6.0 Copyright\r\n\
[dshow @ 000001] \"USB Camera\" (video)\r\n\
[dshow @ 000001] \"Stereo Mix (Realtek(R) Audio)\" (audio)\r\n\
[dshow @ 000001]   Alternative name \"@device_cm_{33D9A762}\\wave_{ABC}\"\r\n\
[dshow @ 000001] \"Microfone (USB Audio)\" (audio)\r\n\
[dshow @ 000001] \"Mixagem estéreo\" (audio)\n\
[dshow @ 000001] \"What You Hear\" (audio)\n\
dummy: Immediate exit requested";

#[test]
fn devices_are_read_in_order_and_classified() {
    let devices = parse_dshow_audio_devices(LISTING);
    let got: Vec<(&str, &str)> =
        devices.iter().map(|d| (d.name.as_str(), d.device_type.as_str())).collect();
    assert_eq!(
        got,
        vec![
            ("Stereo Mix (Realtek(R) Audio)", "loopback"),
            ("Microfone (USB Audio)", "input"),
            ("Mixagem estéreo", "loopback"),
            ("What You Hear", "loopback"),
        ]
    );
}

#[test]
fn wave_out_is_a_loopback() {
    let devices = parse_dshow_audio_devices("[dshow @ 0] \"Wave Out Mix\" (audio)");
    assert_eq!(devices.len(), 1);
    assert_eq!(devices[0].name, "Wave Out Mix");
    assert_eq!(devices[0].device_type, "loopback");
}

#[test]
fn lines_without_both_marks_or_quotes_are_skipped() {
    let listing = "\"Mic\" (audio)\n[dshow @ 0] Mic (audio)\n[dshow @ 0] \"Half (audio)\n";
    assert!(parse_dshow_audio_devices(listing).is_empty());
}

#[test]
fn an_empty_listing_is_an_error() {
    assert_eq!(
        audio_devices_from_listing("").unwrap_err(),
        "Nenhum dispositivo de áudio encontrado"
    );
    assert_eq!(audio_devices_from_listing(LISTING).unwrap().len(), 4);
}

#[test]
fn audio_packet_sizes_and_session_names() {
    assert_eq!(bytes_per_audio_frame(2, 32), 8);
    assert_eq!(bytes_per_audio_frame(6, 16), 12);
    assert_eq!(packet_bytes(480, 8), 3840);
    assert!(packet_is_silent(0x2));
    assert!(packet_is_silent(0x3));
    assert!(!packet_is_silent(0x1));
    assert!(session_is_listed(1234, true));
    assert!(!session_is_listed(0, true));
    assert!(!session_is_listed(1234, false));
    assert_eq!(session_display_name(String::new(), "chrome.exe".to_string()), "chrome.exe");
    assert_eq!(session_display_name("Spotify".to_string(), "spotify.exe".to_string()), "Spotify");
    assert_eq!(file_name_of_path("C:\\Program Files\\App\\app.exe"), "app.exe");
    assert_eq!(file_name_of_path("app.exe"), "app.exe");
    assert_eq!(file_name_of_path("C:\\dir\\"), "");
}
