use hipocast::db::DbSettings;
use hipocast::ffmpeg::{check_frame_size, encoder_launch, ffmpeg_command_args, EncoderLaunch};
use hipocast::stream_config::AudioPlan;

fn launch(audio: bool, mic: bool) -> EncoderLaunch {
    EncoderLaunch {
        width: 1280,
        height: 720,
        fps: 30,
        bitrate: 6_000_000,
        list_size: 5,
        hls_time_ms: 2000,
        output_dir: "C:/out".to_string(),
        stream_id: "window_42".to_string(),
        codec: "libx264".to_string(),
        preset_args: vec!["-preset".to_string(), "ultrafast".to_string()],
        enable_audio: audio,
        enable_microphone: mic,
        audio_bitrate: 128,
        audio_buffer_size: 50,
        audio_offset: -250,
        audio_device: "Stereo Mix".to_string(),
        microphone_device: "Mic".to_string(),
        audio_filters: "volume=0.7".to_string(),
        microphone_filters: "highpass=f=80".to_string(),
    }
}

fn encoding() -> Vec<String> {
    vec![
        "-c:v", "libx264", "-preset", "ultrafast", "-b:v", "6000k", "-maxrate", "6000k",
        "-bufsize", "12000k", "-g", "30", "-color_range", "tv", "-colorspace", "bt709",
        "-color_primaries", "bt709", "-color_trc", "bt709", "-vf",
        "scale=w=trunc(iw/2)*2:h=trunc(ih/2)*2,format=yuv420p", "-c:a", "aac", "-b:a", "128k",
        "-ar", "48000", "-ac", "2", "-aac_coder", "fast",
    ]
    .into_iter()
    .map(String::from)
    .collect()
}

fn hls(ts: u64) -> Vec<String> {
    vec![
        "-f".to_string(), "hls".into(), "-hls_time".into(), "2".into(), "-hls_list_size".into(),
        "5".into(), "-hls_segment_type".into(), "fmp4".into(), "-hls_fmp4_init_filename".into(),
        "init.mp4".into(), "-hls_flags".into(),
        "delete_segments+discont_start+independent_segments+program_date_time".into(),
    ]
    .into_iter()
    .chain(vec![
        "-hls_segment_filename".to_string(),
        format!("C:/out/window_42/window_42_{}_seg_%03d.m4s", ts),
        "-threads".into(),
        "0".into(),
        "C:/out/window_42/window_42.m3u8".into(),
    ])
    .collect()
}

fn strs(v: &[&str]) -> Vec<String> {
    v.iter().map(|s| s.to_string()).collect()
}

#[test]
fn mixed_system_audio_and_microphone() {
    let args = ffmpeg_command_args(&launch(true, true), 1700000000);
    let mut want = strs(&[
        "-y", "-fflags", "+genpts", "-itsoffset", "-0.250",
        "-f", "dshow", "-use_wallclock_as_timestamps", "1", "-i", "audio=Stereo Mix",
        "-thread_queue_size", "512", "-audio_buffer_size", "50",
        "-f", "dshow", "-use_wallclock_as_timestamps", "1", "-i", "audio=Mic",
        "-thread_queue_size", "512", "-audio_buffer_size", "50",
        "-filter_complex",
        "[0:a]aresample=48000,aformat=channel_layouts=stereo,volume=0.7[a0];[1:a]aresample=48000,aformat=channel_layouts=stereo,highpass=f=80[a1];[a0][a1]amerge=inputs=2,pan=stereo|c0<c0+c2|c1<c1+c3[outa]",
        "-f", "rawvideo", "-pix_fmt", "rgba", "-s", "1280x720", "-r", "30", "-i", "pipe:0",
        "-map", "[outa]", "-map", "2:v",
    ]);
    want.extend(encoding());
    want.extend(hls(1700000000));
    assert_eq!(args, want);
}

#[test]
fn system_audio_only() {
    let args = ffmpeg_command_args(&launch(true, false), 5);
    let mut want = strs(&[
        "-y", "-fflags", "+genpts", "-itsoffset", "-0.250",
        "-f", "dshow", "-use_wallclock_as_timestamps", "1", "-i", "audio=Stereo Mix",
        "-thread_queue_size", "512", "-audio_buffer_size", "50",
        "-f", "rawvideo", "-pix_fmt", "rgba", "-s", "1280x720", "-r", "30", "-i", "pipe:0",
        "-filter:a", "aresample=48000,volume=0.7",
        "-map", "0:a", "-map", "1:v",
    ]);
    want.extend(encoding());
    want.extend(strs(&["-af", "aresample=48000,volume=0.7"]));
    want.extend(hls(5));
    assert_eq!(args, want);
}

#[test]
fn microphone_only_without_offset() {
    let mut l = launch(false, true);
    l.audio_offset = 0;
    let args = ffmpeg_command_args(&l, 5);
    assert_eq!(&args[3..5], &["-f", "dshow"]);
    assert_eq!(&args[7..9], &["-i", "audio=Mic"]);
    let i = args.iter().position(|a| a == "-filter:a").unwrap();
    assert_eq!(args[i + 1], "aresample=48000,highpass=f=80");
    let j = args.iter().position(|a| a == "-af").unwrap();
    assert_eq!(args[j + 1], "aresample=48000,highpass=f=80");
    // No later audio filter option overrides the microphone's own chain.
    assert!(!args[j + 2..].iter().any(|a| a == "-af" || a == "-filter:a"));
    assert!(args.contains(&"-shortest".to_string()));
}

#[test]
fn silent_track_when_no_audio() {
    let mut l = launch(false, false);
    l.bitrate = 2_500_000;
    let args = ffmpeg_command_args(&l, 5);
    assert_eq!(&args[3..7], &["-f", "lavfi", "-i", "anullsrc=r=48000:cl=stereo"]);
    assert!(!args.contains(&"-itsoffset".to_string()));
    assert!(!args.contains(&"-af".to_string()));
    assert!(!args.contains(&"-filter:a".to_string()));
    assert!(args.contains(&"2500k".to_string()));
    assert!(args.contains(&"5000k".to_string()));
    let s = args.iter().position(|a| a == "-shortest").unwrap();
    assert_eq!(args[s + 1], "-hls_segment_filename");
}

#[test]
fn frame_sizes_are_checked() {
    assert_eq!(check_frame_size(2, 2, 16), Ok(()));
    assert_eq!(
        check_frame_size(1280, 720, 100).unwrap_err(),
        "Frame size mismatch: expected 3686400, got 100"
    );
}

#[test]
fn launches_follow_settings_and_plan() {
    let mut s = DbSettings::default();
    s.audio_device = "Stereo Mix".to_string();
    let plan = AudioPlan {
        enable_audio: true,
        enable_microphone: false,
        microphone_device: "Mic".to_string(),
        target_pid: None,
        audio_filters: "volume=0.7".to_string(),
        microphone_filters: String::new(),
    };
    let pre = vec!["-preset".to_string(), "ultrafast".to_string()];
    let l = encoder_launch(&s, &plan, "out", "id", "h264_nvenc", &pre);
    assert_eq!((l.width, l.height, l.fps, l.bitrate), (1280, 720, 60, 6_000_000));
    assert_eq!((l.list_size, l.hls_time_ms), (5, 2000));
    assert_eq!(l.codec, "h264_nvenc");
    assert_eq!(l.preset_args, pre);
    assert_eq!(l.audio_device, "Stereo Mix");
    assert_eq!(l.microphone_device, "Mic");
    assert_eq!(l.audio_filters, "volume=0.7");
    assert!(l.enable_audio && !l.enable_microphone);
}
