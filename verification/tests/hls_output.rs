use hipocast::capture::{hls_path_for, sanitize_stream_id};
use hipocast::output::{
    build_hls_muxer_args, build_hls_output_args, playlist_path_for, segment_pattern_for, HlsConfig,
};

#[test]
fn test_hls_config_paths() {
    let config = HlsConfig::new("/tmp/streams", "test_stream", 5, 2000);

    assert_eq!(config.stream_dir(), "/tmp/streams/test_stream");
    assert_eq!(config.playlist_path(), "/tmp/streams/test_stream/test_stream.m3u8");
    assert!(!config.low_latency);
}

#[test]
fn test_hls_low_latency() {
    let config = HlsConfig::new_low_latency("/tmp/streams", "test_stream");

    assert_eq!(config.list_size, 3);
    assert_eq!(config.hls_time_ms, 500);
    assert!(config.low_latency);
}

#[test]
fn muxer_args_for_a_sliding_playlist() {
    assert_eq!(
        build_hls_muxer_args(5, 2000),
        vec![
            "-f", "hls", "-hls_time", "2", "-hls_list_size", "5", "-hls_segment_type", "fmp4",
            "-hls_fmp4_init_filename", "init.mp4", "-hls_flags",
            "delete_segments+discont_start+independent_segments+program_date_time",
        ]
    );
}

#[test]
fn muxer_args_for_an_event_playlist() {
    let args = build_hls_muxer_args(0, 500);
    assert_eq!(args[3], "0.5");
    assert_eq!(
        &args[10..],
        &["-hls_playlist_type", "event", "-hls_flags", "discont_start+independent_segments+program_date_time"]
    );
    assert_eq!(build_hls_muxer_args(3, 1250)[3], "1.25");
}

#[test]
fn output_args_and_paths() {
    assert_eq!(playlist_path_for("out", "s"), "out/s/s.m3u8");
    assert_eq!(segment_pattern_for("out", "s", 1700000000), "out/s/s_1700000000_seg_%03d.m4s");
    assert_eq!(
        build_hls_output_args("out", "s", 7),
        vec!["-hls_segment_filename", "out/s/s_7_seg_%03d.m4s", "-threads", "0", "out/s/s.m3u8"]
    );
}

#[test]
fn config_args() {
    let c = HlsConfig::new("/d", "id", 4, 1000);
    assert_eq!(c.stream_id(), "id");
    assert_eq!(c.to_ffmpeg_args(), build_hls_muxer_args(4, 1000));
    let out = c.to_ffmpeg_output_args().unwrap();
    assert_eq!(out.len(), 5);
    assert_eq!(out[4], "/d/id/id.m3u8");
    assert!(out[1].starts_with("/d/id/id_") && out[1].ends_with("_seg_%03d.m4s"));
    assert!(c.segment_pattern().unwrap().starts_with("/d/id/id_"));
}

#[test]
fn the_published_path_is_the_written_playlist() {
    let id = "window:65802";
    let safe = sanitize_stream_id(id);
    let written = playlist_path_for("C:/app/streams", &safe);
    let published = hls_path_for(id);
    let suffix = "/window_65802/window_65802.m3u8";
    assert_eq!(written, format!("C:/app/streams{}", suffix));
    assert_eq!(published, format!("/streams{}", suffix));
}
