use hipocast::encoder::{
    build_audio_encoding_args, build_audio_input_args, build_audio_mix_filter,
    build_single_audio_filter, build_stream_mapping, build_video_encoding_args,
    detect_encoder, encoder_probe_args, get_encoder_config, AudioConfig, EncoderStep,
    VideoEncoderConfig,
};

fn strs(v: &[&str]) -> Vec<String> {
    v.iter().map(|s| s.to_string()).collect()
}

fn audio(enabled: bool, mic: bool) -> AudioConfig {
    AudioConfig {
        enabled,
        microphone_enabled: mic,
        device: "Stereo Mix".to_string(),
        microphone_device: "Mic (USB)".to_string(),
        bitrate: 192,
        buffer_size: 50,
        offset_ms: -1500,
        audio_filters: "bass=g=2".to_string(),
        microphone_filters: String::new(),
    }
}

#[test]
fn audio_config_default_values() {
    let c = AudioConfig::default();
    assert!(!c.enabled && !c.microphone_enabled);
    assert_eq!(c.bitrate, 128);
    assert_eq!(c.buffer_size, 40);
    assert_eq!(c.offset_ms, 0);
    assert!(c.device.is_empty() && c.audio_filters.is_empty());
}

#[test]
fn input_args_system_and_microphone() {
    let args = build_audio_input_args(&audio(true, true));
    assert_eq!(
        args,
        strs(&[
            "-f", "dshow", "-thread_queue_size", "4096", "-rtbufsize", "30M",
            "-audio_buffer_size", "50", "-i", "audio=Stereo Mix",
            "-f", "dshow", "-thread_queue_size", "4096", "-rtbufsize", "30M",
            "-audio_buffer_size", "50", "-i", "audio=Mic (USB)",
        ])
    );
}

#[test]
fn input_args_microphone_only() {
    let args = build_audio_input_args(&audio(false, true));
    assert_eq!(
        args,
        strs(&[
            "-f", "dshow", "-use_wallclock_as_timestamps", "1", "-thread_queue_size", "4096",
            "-rtbufsize", "150M", "-audio_buffer_size", "50", "-i", "audio=Mic (USB)",
        ])
    );
}

#[test]
fn input_args_silent() {
    let args = build_audio_input_args(&audio(false, false));
    assert_eq!(args, strs(&["-f", "lavfi", "-i", "anullsrc=r=48000:cl=stereo"]));
}

#[test]
fn mix_filter_formats_offset_in_seconds() {
    let f = build_audio_mix_filter(&audio(true, true)).unwrap();
    assert_eq!(
        f,
        "[0:a]aresample=48000:async=1,asetpts=PTS-STARTPTS+-1.500/TB,bass=g=2[a0];\
[1:a]aresample=48000:async=1,asetpts=PTS-STARTPTS+-1.500/TB[a1];\
[a0][a1]amix=inputs=2:duration=longest[outa]"
    );
    assert!(build_audio_mix_filter(&audio(true, false)).is_none());
}

#[test]
fn mix_filter_small_offsets() {
    let mut c = audio(true, true);
    c.offset_ms = 5;
    c.audio_filters = String::new();
    let f = build_audio_mix_filter(&c).unwrap();
    assert!(f.starts_with("[0:a]aresample=48000:async=1,asetpts=PTS-STARTPTS+0.005/TB[a0]"));
    c.offset_ms = 0;
    let f = build_audio_mix_filter(&c).unwrap();
    assert!(f.contains("+0.000/TB[a1]"));
}

#[test]
fn stream_mapping_follows_sources() {
    assert_eq!(build_stream_mapping(&audio(true, true)), strs(&["-map", "[outa]", "-map", "2:v"]));
    assert_eq!(build_stream_mapping(&audio(true, false)), strs(&["-map", "0:a", "-map", "1:v"]));
    assert_eq!(build_stream_mapping(&audio(false, false)), strs(&["-map", "0:a", "-map", "1:v"]));
}

#[test]
fn video_encoding_arguments() {
    let v = VideoEncoderConfig {
        codec: "h264_nvenc".to_string(),
        preset_args: strs(&["-preset", "p1"]),
        width: 1280,
        height: 720,
        fps: 60,
        bitrate: 6_000_000,
    };
    assert_eq!(
        build_video_encoding_args(&v),
        strs(&[
            "-c:v", "h264_nvenc", "-preset", "p1", "-b:v", "6000k", "-maxrate", "6000k",
            "-bufsize", "12000k", "-g", "60", "-color_range", "tv", "-colorspace", "bt709",
            "-color_primaries", "bt709", "-color_trc", "bt709", "-vf",
            "scale=w=trunc(iw/2)*2:h=trunc(ih/2)*2,format=yuv420p",
        ])
    );
}

#[test]
fn audio_encoding_arguments() {
    assert_eq!(
        build_audio_encoding_args(&audio(true, false)),
        strs(&["-c:a", "aac", "-b:a", "192k", "-ar", "48000", "-ac", "2", "-aac_coder", "fast"])
    );
}

#[test]
fn single_filter_cases() {
    assert_eq!(
        build_single_audio_filter(&audio(true, false)).unwrap(),
        "aresample=48000:async=1,asetpts=PTS-STARTPTS+-1.500/TB,bass=g=2"
    );
    let mut m = audio(false, true);
    m.microphone_filters = "deesser".to_string();
    m.offset_ms = 250;
    assert_eq!(
        build_single_audio_filter(&m).unwrap(),
        "aresample=48000:async=1,asetpts=PTS-STARTPTS+0.250/TB,deesser"
    );
    m.microphone_filters = String::new();
    assert_eq!(
        build_single_audio_filter(&m).unwrap(),
        "aresample=48000:async=1,asetpts=PTS-STARTPTS+0.250/TB"
    );
    assert!(build_single_audio_filter(&audio(true, true)).is_none());
    assert!(build_single_audio_filter(&audio(false, false)).is_none());
}

#[test]
fn encoder_config_cpu_and_detected() {
    let detected = ("h264_qsv".to_string(), strs(&["-preset", "veryfast"]));
    let (c, a) = get_encoder_config(false, "medium", &detected);
    assert_eq!(c, "libx264");
    assert_eq!(a, strs(&["-preset", "medium", "-tune", "zerolatency"]));
    let (c, a) = get_encoder_config(true, "medium", &detected);
    assert_eq!(c, "h264_qsv");
    assert_eq!(a, strs(&["-preset", "veryfast"]));
}

#[test]
fn detection_probes_in_order_then_falls_back() {
    match detect_encoder(&vec![]) {
        EncoderStep::Probe(c) => assert_eq!(c, "h264_amf"),
        other => panic!("unexpected {:?}", other),
    }
    match detect_encoder(&vec![false]) {
        EncoderStep::Probe(c) => assert_eq!(c, "h264_nvenc"),
        other => panic!("unexpected {:?}", other),
    }
    match detect_encoder(&vec![false, true]) {
        EncoderStep::Use(c, a) => {
            assert_eq!(c, "h264_nvenc");
            assert_eq!(a, strs(&["-preset", "p1", "-tune", "ll"]));
        }
        other => panic!("unexpected {:?}", other),
    }
    match detect_encoder(&vec![false, false, false]) {
        EncoderStep::Use(c, a) => {
            assert_eq!(c, "libx264");
            assert_eq!(a, strs(&["-preset", "veryfast", "-tune", "zerolatency", "-threads", "0"]));
        }
        other => panic!("unexpected {:?}", other),
    }
}

#[test]
fn probe_arguments_name_the_codec() {
    let a = encoder_probe_args("h264_amf");
    assert_eq!(a[11], "h264_amf");
    assert_eq!(a.len(), 17);
    assert_eq!(a[6], "color=c=black:s=256x256:d=0.1:r=30");
}

#[test]
fn inputs_agree_with_the_mapping() {
    for (a, m) in [(true, true), (true, false), (false, true), (false, false)] {
        let c = audio(a, m);
        let inputs = build_audio_input_args(&c).iter().filter(|x| *x == "-i").count();
        let mapping = build_stream_mapping(&c);
        assert_eq!(mapping[3], format!("{}:v", inputs));
        assert_eq!(inputs, if a && m { 2 } else { 1 });
        assert_eq!(mapping[1] == "[outa]", build_audio_mix_filter(&c).is_some());
    }
}

#[test]
fn at_most_one_kind_of_audio_filter() {
    for (a, m) in [(true, true), (true, false), (false, true), (false, false)] {
        let c = audio(a, m);
        let mix = build_audio_mix_filter(&c).is_some();
        let single = build_single_audio_filter(&c).is_some();
        assert!(!(mix && single));
        assert_eq!(mix || single, a || m);
    }
}

fn run_detection(works: &[&str]) -> (Vec<String>, String) {
    let mut outcomes = Vec::new();
    let mut probed = Vec::new();
    loop {
        match detect_encoder(&outcomes) {
            EncoderStep::Probe(c) => {
                outcomes.push(works.contains(&c.as_str()));
                probed.push(c);
            }
            EncoderStep::Use(c, _) => return (probed, c),
        }
    }
}

#[test]
fn detection_decides_within_three_probes() {
    assert_eq!(
        run_detection(&[]),
        (strs(&["h264_amf", "h264_nvenc", "h264_qsv"]), "libx264".to_string())
    );
    assert_eq!(run_detection(&["h264_qsv", "h264_amf"]), (strs(&["h264_amf"]), "h264_amf".to_string()));
    assert_eq!(
        run_detection(&["h264_qsv"]),
        (strs(&["h264_amf", "h264_nvenc", "h264_qsv"]), "h264_qsv".to_string())
    );
}
