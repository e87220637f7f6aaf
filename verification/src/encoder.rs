//! Video and audio encoding arguments for FFmpeg. This module knows nothing
//! about HLS or any other output format.
use vstd::prelude::*;

use crate::text::{
    dec_digits, push_arg, push_args, push_str_arg, push_u64, seconds3, seconds_from_millis,
    copy_args, copy_string,
};

verus! {

/// Video encoder settings.
#[derive(Debug, Clone)]
pub struct VideoEncoderConfig {
    pub codec: String,
    pub preset_args: Vec<String>,
    pub width: u32,
    pub height: u32,
    pub fps: u32,
    pub bitrate: u32,
}

/// Simplified audio settings.
#[derive(Debug, Clone)]
pub struct AudioConfig {
    pub enabled: bool,
    pub microphone_enabled: bool,
    pub device: String,
    pub microphone_device: String,
    pub bitrate: u32,
    pub buffer_size: u32,
    pub offset_ms: i32,
    pub audio_filters: String,
    pub microphone_filters: String,
}

impl Default for AudioConfig {
    fn default() -> (r: Self)
        ensures
            !r.enabled,
            !r.microphone_enabled,
            r.device@ == Seq::<char>::empty(),
            r.microphone_device@ == Seq::<char>::empty(),
            r.bitrate == 128,
            r.buffer_size == 40,
            r.offset_ms == 0,
            r.audio_filters@ == Seq::<char>::empty(),
            r.microphone_filters@ == Seq::<char>::empty(),
    {
        AudioConfig {
            enabled: false,
            microphone_enabled: false,
            device: String::new(),
            microphone_device: String::new(),
            bitrate: 128,
            buffer_size: 40,
            offset_ms: 0,
            audio_filters: String::new(),
            microphone_filters: String::new(),
        }
    }
}

/// Fixed FFmpeg input positions: audio comes first, video second.
pub const AUDIO_INPUT_INDEX: u32 = 0;

/// Fixed FFmpeg input positions: audio comes first, video second.
pub const VIDEO_INPUT_INDEX: u32 = 1;

/// A DirectShow audio input with the large-buffer options used for the
/// system audio and for the microphone when both are captured.
pub open spec fn dshow_input(buffer_size: u32, device: Seq<char>) -> Seq<Seq<char>> {
    seq![
        "-f"@, "dshow"@, "-thread_queue_size"@, "4096"@, "-rtbufsize"@, "30M"@,
        "-audio_buffer_size"@, dec_digits(buffer_size as nat), "-i"@, "audio="@ + device,
    ]
}

/// The DirectShow input used when the microphone is the only audio source.
pub open spec fn dshow_mic_only_input(buffer_size: u32, device: Seq<char>) -> Seq<Seq<char>> {
    seq![
        "-f"@, "dshow"@, "-use_wallclock_as_timestamps"@, "1"@, "-thread_queue_size"@, "4096"@,
        "-rtbufsize"@, "150M"@, "-audio_buffer_size"@, dec_digits(buffer_size as nat), "-i"@,
        "audio="@ + device,
    ]
}

/// The silent audio source used when no audio is captured.
pub open spec fn silent_input() -> Seq<Seq<char>> {
    seq!["-f"@, "lavfi"@, "-i"@, "anullsrc=r=48000:cl=stereo"@]
}

/// The audio inputs for a configuration: system audio and microphone, one
/// of them, or a silent track.
pub open spec fn audio_input_args(c: AudioConfig) -> Seq<Seq<char>> {
    if c.enabled && c.microphone_enabled {
        dshow_input(c.buffer_size, c.device@) + dshow_input(c.buffer_size, c.microphone_device@)
    } else if c.enabled {
        dshow_input(c.buffer_size, c.device@)
    } else if c.microphone_enabled {
        dshow_mic_only_input(c.buffer_size, c.microphone_device@)
    } else {
        silent_input()
    }
}

fn push_dshow_input(args: &mut Vec<String>, buffer_size: u32, device: &String)
    ensures
        final(args).deep_view() == old(args).deep_view() + dshow_input(buffer_size, device@),
{
    push_str_arg(args, "-f");
    push_str_arg(args, "dshow");
    push_str_arg(args, "-thread_queue_size");
    push_str_arg(args, "4096");
    push_str_arg(args, "-rtbufsize");
    push_str_arg(args, "30M");
    push_str_arg(args, "-audio_buffer_size");
    let mut b = String::new();
    push_u64(&mut b, buffer_size as u64);
    assert(b@ =~= dec_digits(buffer_size as nat));
    push_arg(args, b);
    push_str_arg(args, "-i");
    let mut d = String::from_str("audio=");
    d.append(device.as_str());
    push_arg(args, d);
    assert(final(args).deep_view() =~= old(args).deep_view() + dshow_input(buffer_size, device@));
}

/// FFmpeg input arguments for the audio sources of `config`.
pub fn build_audio_input_args(config: &AudioConfig) -> (r: Vec<String>)
    ensures
        r.deep_view() == audio_input_args(*config),
{
    let mut args: Vec<String> = Vec::new();
    if config.enabled && config.microphone_enabled {
        push_dshow_input(&mut args, config.buffer_size, &config.device);
        push_dshow_input(&mut args, config.buffer_size, &config.microphone_device);
    } else if config.enabled {
        push_dshow_input(&mut args, config.buffer_size, &config.device);
    } else if config.microphone_enabled {
        push_str_arg(&mut args, "-f");
        push_str_arg(&mut args, "dshow");
        push_str_arg(&mut args, "-use_wallclock_as_timestamps");
        push_str_arg(&mut args, "1");
        push_str_arg(&mut args, "-thread_queue_size");
        push_str_arg(&mut args, "4096");
        push_str_arg(&mut args, "-rtbufsize");
        push_str_arg(&mut args, "150M");
        push_str_arg(&mut args, "-audio_buffer_size");
        let mut b = String::new();
        push_u64(&mut b, config.buffer_size as u64);
        assert(b@ =~= dec_digits(config.buffer_size as nat));
        push_arg(&mut args, b);
        push_str_arg(&mut args, "-i");
        let mut d = String::from_str("audio=");
        d.append(config.microphone_device.as_str());
        push_arg(&mut args, d);
    } else {
        push_str_arg(&mut args, "-f");
        push_str_arg(&mut args, "lavfi");
        push_str_arg(&mut args, "-i");
        push_str_arg(&mut args, "anullsrc=r=48000:cl=stereo");
    }
    assert(args.deep_view() =~= audio_input_args(*config));
    args
}

/// Resampling to 48 kHz and shifting the timestamps by the configured offset,
/// followed by the given effect filters when there are any.
pub open spec fn resample_chain(offset_ms: i32, filters: Seq<char>) -> Seq<char> {
    let base = "aresample=48000:async=1,asetpts=PTS-STARTPTS+"@ + seconds3(offset_ms as int) + "/TB"@;
    if filters.len() > 0 {
        base + ","@ + filters
    } else {
        base
    }
}

fn build_resample_chain(offset_ms: i32, filters: &String) -> (r: String)
    ensures
        r@ == resample_chain(offset_ms, filters@),
{
    let mut s = String::from_str("aresample=48000:async=1,asetpts=PTS-STARTPTS+");
    let secs = seconds_from_millis(offset_ms);
    s.append(secs.as_str());
    s.append("/TB");
    if !filters.as_str().is_empty() {
        s.append(",");
        s.append(filters.as_str());
    }
    s
}

/// The filter graph that mixes system audio (input 0) and microphone (input 1).
pub open spec fn audio_mix_filter(c: AudioConfig) -> Option<Seq<char>> {
    if c.enabled && c.microphone_enabled {
        Some(
            "[0:a]"@ + resample_chain(c.offset_ms, c.audio_filters@) + "[a0];[1:a]"@
                + resample_chain(c.offset_ms, c.microphone_filters@)
                + "[a1];[a0][a1]amix=inputs=2:duration=longest[outa]"@,
        )
    } else {
        None
    }
}

/// The audio mixing filter graph, present only when both system audio and
/// microphone are captured.
pub fn build_audio_mix_filter(config: &AudioConfig) -> (r: Option<String>)
    ensures
        r.deep_view() == audio_mix_filter(*config),
{
    if config.enabled && config.microphone_enabled {
        let sys = build_resample_chain(config.offset_ms, &config.audio_filters);
        let mic = build_resample_chain(config.offset_ms, &config.microphone_filters);
        let mut s = String::from_str("[0:a]");
        s.append(sys.as_str());
        s.append("[a0];[1:a]");
        s.append(mic.as_str());
        s.append("[a1];[a0][a1]amix=inputs=2:duration=longest[outa]");
        Some(s)
    } else {
        None
    }
}

/// Stream mapping: the mixed audio and video from input 2 when both sources
/// are mixed, otherwise audio from input 0 and video from input 1.
pub open spec fn stream_mapping(c: AudioConfig) -> Seq<Seq<char>> {
    if c.enabled && c.microphone_enabled {
        seq!["-map"@, "[outa]"@, "-map"@, "2:v"@]
    } else {
        seq!["-map"@, "0:a"@, "-map"@, "1:v"@]
    }
}

/// FFmpeg stream mapping arguments.
pub fn build_stream_mapping(config: &AudioConfig) -> (r: Vec<String>)
    ensures
        r.deep_view() == stream_mapping(*config),
{
    let mut args: Vec<String> = Vec::new();
    if config.enabled && config.microphone_enabled {
        push_str_arg(&mut args, "-map");
        push_str_arg(&mut args, "[outa]");
        push_str_arg(&mut args, "-map");
        push_str_arg(&mut args, "2:v");
    } else {
        push_str_arg(&mut args, "-map");
        push_str_arg(&mut args, "0:a");
        push_str_arg(&mut args, "-map");
        push_str_arg(&mut args, "1:v");
    }
    assert(args.deep_view() =~= stream_mapping(*config));
    args
}

/// A bitrate in kbit/s with the `k` suffix.
pub open spec fn kbits(n: nat) -> Seq<char> {
    dec_digits(n) + "k"@
}

pub(crate) fn kbits_string(n: u32) -> (r: String)
    ensures
        r@ == kbits(n as nat),
{
    let mut s = String::new();
    push_u64(&mut s, n as u64);
    s.append("k");
    s
}

/// Video encoding arguments: codec, its preset, a constant bitrate (bits/s
/// given, kbit/s written, buffer of two seconds), a one-second GOP, BT.709
/// colour and even output dimensions in yuv420p.
pub open spec fn video_encoding_args(c: VideoEncoderConfig) -> Seq<Seq<char>> {
    seq!["-c:v"@, c.codec@] + c.preset_args.deep_view() + seq![
        "-b:v"@, kbits((c.bitrate / 1000) as nat), "-maxrate"@, kbits((c.bitrate / 1000) as nat),
        "-bufsize"@, kbits((c.bitrate / 500) as nat), "-g"@, dec_digits(c.fps as nat),
        "-color_range"@, "tv"@, "-colorspace"@, "bt709"@, "-color_primaries"@, "bt709"@,
        "-color_trc"@, "bt709"@, "-vf"@, "scale=w=trunc(iw/2)*2:h=trunc(ih/2)*2,format=yuv420p"@,
    ]
}

/// FFmpeg video encoding arguments.
pub fn build_video_encoding_args(config: &VideoEncoderConfig) -> (r: Vec<String>)
    ensures
        r.deep_view() == video_encoding_args(*config),
{
    let mut args: Vec<String> = Vec::new();
    push_str_arg(&mut args, "-c:v");
    push_arg(&mut args, copy_string(&config.codec));
    push_args(&mut args, &config.preset_args);
    push_str_arg(&mut args, "-b:v");
    push_arg(&mut args, kbits_string(config.bitrate / 1000));
    push_str_arg(&mut args, "-maxrate");
    push_arg(&mut args, kbits_string(config.bitrate / 1000));
    push_str_arg(&mut args, "-bufsize");
    push_arg(&mut args, kbits_string(config.bitrate / 500));
    push_str_arg(&mut args, "-g");
    let mut g = String::new();
    push_u64(&mut g, config.fps as u64);
    assert(g@ =~= dec_digits(config.fps as nat));
    push_arg(&mut args, g);
    push_str_arg(&mut args, "-color_range");
    push_str_arg(&mut args, "tv");
    push_str_arg(&mut args, "-colorspace");
    push_str_arg(&mut args, "bt709");
    push_str_arg(&mut args, "-color_primaries");
    push_str_arg(&mut args, "bt709");
    push_str_arg(&mut args, "-color_trc");
    push_str_arg(&mut args, "bt709");
    push_str_arg(&mut args, "-vf");
    push_str_arg(&mut args, "scale=w=trunc(iw/2)*2:h=trunc(ih/2)*2,format=yuv420p");
    assert(args.deep_view() =~= video_encoding_args(*config));
    args
}

/// Audio encoding arguments: AAC at the configured bitrate, 48 kHz stereo,
/// with the fast coder.
pub open spec fn audio_encoding_args(c: AudioConfig) -> Seq<Seq<char>> {
    seq![
        "-c:a"@, "aac"@, "-b:a"@, kbits(c.bitrate as nat), "-ar"@, "48000"@, "-ac"@, "2"@,
        "-aac_coder"@, "fast"@,
    ]
}

/// FFmpeg audio encoding arguments.
pub fn build_audio_encoding_args(config: &AudioConfig) -> (r: Vec<String>)
    ensures
        r.deep_view() == audio_encoding_args(*config),
{
    let mut args: Vec<String> = Vec::new();
    push_str_arg(&mut args, "-c:a");
    push_str_arg(&mut args, "aac");
    push_str_arg(&mut args, "-b:a");
    push_arg(&mut args, kbits_string(config.bitrate));
    push_str_arg(&mut args, "-ar");
    push_str_arg(&mut args, "48000");
    push_str_arg(&mut args, "-ac");
    push_str_arg(&mut args, "2");
    push_str_arg(&mut args, "-aac_coder");
    push_str_arg(&mut args, "fast");
    assert(args.deep_view() =~= audio_encoding_args(*config));
    args
}

/// The filter for a single (unmixed) audio source: present exactly when one
/// of system audio and microphone is captured, with the effect filters of the
/// system audio when it is on and has any, else those of the microphone when
/// it is on and has any, else only the resample and offset.
pub open spec fn single_audio_filter(c: AudioConfig) -> Option<Seq<char>> {
    if (c.enabled || c.microphone_enabled) && !(c.enabled && c.microphone_enabled) {
        if c.enabled && c.audio_filters@.len() > 0 {
            Some(resample_chain(c.offset_ms, c.audio_filters@))
        } else if c.microphone_enabled && c.microphone_filters@.len() > 0 {
            Some(resample_chain(c.offset_ms, c.microphone_filters@))
        } else {
            Some(resample_chain(c.offset_ms, Seq::empty()))
        }
    } else {
        None
    }
}

/// Audio filter for a single, unmixed audio stream.
pub fn build_single_audio_filter(config: &AudioConfig) -> (r: Option<String>)
    ensures
        r.deep_view() == single_audio_filter(*config),
{
    let is_single = (config.enabled || config.microphone_enabled) && !(config.enabled
        && config.microphone_enabled);
    if is_single {
        let filters = if config.enabled && !config.audio_filters.as_str().is_empty() {
            build_resample_chain(config.offset_ms, &config.audio_filters)
        } else if config.microphone_enabled && !config.microphone_filters.as_str().is_empty() {
            build_resample_chain(config.offset_ms, &config.microphone_filters)
        } else {
            build_resample_chain(config.offset_ms, &String::new())
        };
        Some(filters)
    } else {
        None
    }
}


/// The CPU (libx264) encoder with the given x264 preset and zero-latency tuning.
pub open spec fn cpu_encoder(cpu_preset: Seq<char>) -> (Seq<char>, Seq<Seq<char>>) {
    ("libx264"@, seq!["-preset"@, cpu_preset, "-tune"@, "zerolatency"@])
}

/// Encoder choice: the detected hardware encoder when hardware acceleration
/// is enabled, otherwise libx264 with the user's CPU preset. `detected` is
/// what detection found on this machine; it is used only when acceleration is
/// enabled.
pub fn get_encoder_config(
    enable_hw_accel: bool,
    cpu_preset: &str,
    detected: &(String, Vec<String>),
) -> (r: (String, Vec<String>))
    ensures
        enable_hw_accel ==> r.0@ == detected.0@ && r.1.deep_view() == detected.1.deep_view(),
        !enable_hw_accel ==> (r.0@, r.1.deep_view()) == cpu_encoder(cpu_preset@),
{
    if enable_hw_accel {
        (copy_string(&detected.0), copy_args(&detected.1))
    } else {
        let mut args: Vec<String> = Vec::new();
        push_str_arg(&mut args, "-preset");
        push_str_arg(&mut args, cpu_preset);
        push_str_arg(&mut args, "-tune");
        push_str_arg(&mut args, "zerolatency");
        assert(args.deep_view() =~= cpu_encoder(cpu_preset@).1);
        (String::from_str("libx264"), args)
    }
}

/// Hardware encoders in the order they are tried (AMD first, for Ryzen APUs,
/// then NVIDIA, then Intel), each with its low-latency preset arguments.
pub open spec fn hw_candidate(i: int) -> (Seq<char>, Seq<Seq<char>>) {
    if i == 0 {
        ("h264_amf"@, seq!["-usage"@, "lowlatency"@, "-quality"@, "speed"@])
    } else if i == 1 {
        ("h264_nvenc"@, seq!["-preset"@, "p1"@, "-tune"@, "ll"@])
    } else {
        ("h264_qsv"@, seq!["-preset"@, "veryfast"@])
    }
}

/// The number of hardware encoders that are tried.
pub open spec fn hw_candidate_count() -> nat {
    3
}

/// The CPU encoder used when no hardware encoder works.
pub open spec fn fallback_encoder() -> (Seq<char>, Seq<Seq<char>>) {
    (
        "libx264"@,
        seq!["-preset"@, "veryfast"@, "-tune"@, "zerolatency"@, "-threads"@, "0"@],
    )
}

/// The next step of encoder detection: probe a codec, or use an encoder.
#[derive(Debug, Clone)]
pub enum EncoderStep {
    Probe(String),
    Use(String, Vec<String>),
}

/// The position of the first successful probe among the first `n` outcomes,
/// or `n` when there is none.
pub open spec fn first_success(outcomes: Seq<bool>, n: nat) -> nat
    decreases n,
{
    if n == 0 {
        0
    } else if first_success(outcomes, (n - 1) as nat) < n - 1 {
        first_success(outcomes, (n - 1) as nat)
    } else if outcomes[n - 1] {
        (n - 1) as nat
    } else {
        n
    }
}

/// What detection does after the probes whose outcomes are given, in order:
/// use the first candidate whose probe succeeded; else probe the next
/// candidate; else, all having failed, fall back to the CPU encoder.
pub open spec fn detect_step(outcomes: Seq<bool>) -> (bool, Seq<char>, Seq<Seq<char>>) {
    let tried: nat = if outcomes.len() < hw_candidate_count() {
        outcomes.len()
    } else {
        hw_candidate_count()
    };
    let k = first_success(outcomes, tried);
    if k < tried {
        (true, hw_candidate(k as int).0, hw_candidate(k as int).1)
    } else if tried < hw_candidate_count() {
        (false, hw_candidate(tried as int).0, Seq::empty())
    } else {
        (true, fallback_encoder().0, fallback_encoder().1)
    }
}

/// The view of an encoder step as (decided, codec, preset arguments).
pub open spec fn step_view(s: EncoderStep) -> (bool, Seq<char>, Seq<Seq<char>>) {
    match s {
        EncoderStep::Probe(c) => (false, c@, Seq::empty()),
        EncoderStep::Use(c, a) => (true, c@, a.deep_view()),
    }
}

fn candidate(i: usize) -> (r: (String, Vec<String>))
    requires
        i < 3,
    ensures
        (r.0@, r.1.deep_view()) == hw_candidate(i as int),
{
    let mut args: Vec<String> = Vec::new();
    if i == 0 {
        push_str_arg(&mut args, "-usage");
        push_str_arg(&mut args, "lowlatency");
        push_str_arg(&mut args, "-quality");
        push_str_arg(&mut args, "speed");
        assert(args.deep_view() =~= hw_candidate(0).1);
        (String::from_str("h264_amf"), args)
    } else if i == 1 {
        push_str_arg(&mut args, "-preset");
        push_str_arg(&mut args, "p1");
        push_str_arg(&mut args, "-tune");
        push_str_arg(&mut args, "ll");
        assert(args.deep_view() =~= hw_candidate(1).1);
        (String::from_str("h264_nvenc"), args)
    } else {
        push_str_arg(&mut args, "-preset");
        push_str_arg(&mut args, "veryfast");
        assert(args.deep_view() =~= hw_candidate(2).1);
        (String::from_str("h264_qsv"), args)
    }
}

/// One step of hardware encoder detection. `outcomes` holds the results of
/// the probes run so far, in candidate order; the caller runs the probe that
/// a `Probe` step names, appends its result and asks again, until a `Use`
/// step names the encoder.
pub fn detect_encoder(outcomes: &Vec<bool>) -> (r: EncoderStep)
    ensures
        step_view(r) == detect_step(outcomes@),
{
    let tried: usize = if outcomes.len() < 3 { outcomes.len() } else { 3 };
    let mut i: usize = 0;
    while i < tried
        invariant
            tried <= 3,
            tried <= outcomes@.len(),
            tried == (if outcomes@.len() < 3 { outcomes@.len() } else { 3 }),
            i <= tried,
            first_success(outcomes@, i as nat) == i,
        decreases tried - i,
    {
        if outcomes[i] {
            assert(first_success(outcomes@, (i + 1) as nat) == i);
            proof {
                lemma_first_success_stable(outcomes@, (i + 1) as nat, tried as nat);
            }
            let (c, a) = candidate(i);
            return EncoderStep::Use(c, a);
        }
        i = i + 1;
    }
    if tried < 3 {
        let (c, _) = candidate(tried);
        EncoderStep::Probe(c)
    } else {
        let mut args: Vec<String> = Vec::new();
        push_str_arg(&mut args, "-preset");
        push_str_arg(&mut args, "veryfast");
        push_str_arg(&mut args, "-tune");
        push_str_arg(&mut args, "zerolatency");
        push_str_arg(&mut args, "-threads");
        push_str_arg(&mut args, "0");
        assert(args.deep_view() =~= fallback_encoder().1);
        EncoderStep::Use(String::from_str("libx264"), args)
    }
}

/// Once a success is found among the first `m` outcomes, it stays the first
/// success among any longer prefix.
proof fn lemma_first_success_stable(outcomes: Seq<bool>, m: nat, n: nat)
    requires
        m <= n,
        first_success(outcomes, m) < m,
    ensures
        first_success(outcomes, n) == first_success(outcomes, m),
    decreases n - m,
{
    if n > m {
        lemma_first_success_stable(outcomes, m, (n - 1) as nat);
    }
}

/// The mixing graph is made of the chains each source gets when it is the
/// only one captured: its `[0:a]` branch is the system audio's single-source
/// filter and its `[1:a]` branch the microphone's, so each source keeps its
/// own effect filters in the mix. The microphone's chain is the resampling
/// and offset, then the microphone filters when there are any.
pub proof fn law_mix_branches_are_the_single_source_chains(c: AudioConfig)
    requires
        c.enabled && c.microphone_enabled,
    ensures
        ({
            let sys = single_audio_filter((AudioConfig { microphone_enabled: false, ..c }));
            let mic = single_audio_filter((AudioConfig { enabled: false, ..c }));
            &&& sys is Some && mic is Some
            &&& audio_mix_filter(c) == Some("[0:a]"@ + sys->0 + "[a0];[1:a]"@ + mic->0
                + "[a1];[a0][a1]amix=inputs=2:duration=longest[outa]"@)
            &&& mic->0 == "aresample=48000:async=1,asetpts=PTS-STARTPTS+"@ + seconds3(
                c.offset_ms as int,
            ) + "/TB"@ + (if c.microphone_filters@.len() > 0 {
                ","@ + c.microphone_filters@
            } else {
                Seq::<char>::empty()
            })
            &&& sys->0 == "aresample=48000:async=1,asetpts=PTS-STARTPTS+"@ + seconds3(
                c.offset_ms as int,
            ) + "/TB"@ + (if c.audio_filters@.len() > 0 {
                ","@ + c.audio_filters@
            } else {
                Seq::<char>::empty()
            })
        }),
{
}

/// With no success among the first `n` outcomes, the first success is not
/// among them.
proof fn lemma_first_success_none(outcomes: Seq<bool>, n: nat)
    requires
        n <= outcomes.len(),
        forall|i: int| 0 <= i < n ==> !outcomes[i],
    ensures
        first_success(outcomes, n) == n,
    decreases n,
{
    if n > 0 {
        lemma_first_success_none(outcomes, (n - 1) as nat);
    }
}

/// The detection loop probes the hardware encoders in order, each once, and
/// decides after at most three probes: while every probe so far has failed it
/// asks for the next candidate, and once three outcomes are known it always
/// names the encoder to use.
pub proof fn law_detection_probes_in_order(outcomes: Seq<bool>)
    ensures
        outcomes.len() >= hw_candidate_count() ==> detect_step(outcomes).0,
        outcomes.len() < hw_candidate_count() && (forall|i: int|
            0 <= i < outcomes.len() ==> !#[trigger] outcomes[i]) ==> detect_step(outcomes) == (
            false,
            hw_candidate(outcomes.len() as int).0,
            Seq::<Seq<char>>::empty(),
        ),
{
    if outcomes.len() < hw_candidate_count() && (forall|i: int|
        0 <= i < outcomes.len() ==> !#[trigger] outcomes[i]) {
        lemma_first_success_none(outcomes, outcomes.len());
    }
}

/// Arguments of the short test encoding that tells whether `codec` works on
/// this machine: one black 256x256 frame (the minimum AMF accepts) at 1 Mbit/s,
/// no audio, written nowhere.
pub open spec fn probe_args(codec: Seq<char>) -> Seq<Seq<char>> {
    seq![
        "-hide_banner"@, "-v"@, "warning"@, "-f"@, "lavfi"@, "-i"@,
        "color=c=black:s=256x256:d=0.1:r=30"@, "-vframes"@, "1"@, "-an"@, "-c:v"@, codec,
        "-b:v"@, "1M"@, "-f"@, "null"@, "-"@,
    ]
}

/// FFmpeg arguments that probe whether `codec` is usable.
pub fn encoder_probe_args(codec: &str) -> (r: Vec<String>)
    ensures
        r.deep_view() == probe_args(codec@),
{
    let mut args: Vec<String> = Vec::new();
    push_str_arg(&mut args, "-hide_banner");
    push_str_arg(&mut args, "-v");
    push_str_arg(&mut args, "warning");
    push_str_arg(&mut args, "-f");
    push_str_arg(&mut args, "lavfi");
    push_str_arg(&mut args, "-i");
    push_str_arg(&mut args, "color=c=black:s=256x256:d=0.1:r=30");
    push_str_arg(&mut args, "-vframes");
    push_str_arg(&mut args, "1");
    push_str_arg(&mut args, "-an");
    push_str_arg(&mut args, "-c:v");
    push_str_arg(&mut args, codec);
    push_str_arg(&mut args, "-b:v");
    push_str_arg(&mut args, "1M");
    push_str_arg(&mut args, "-f");
    push_str_arg(&mut args, "null");
    push_str_arg(&mut args, "-");
    assert(args.deep_view() =~= probe_args(codec@));
    args
}


/// How many arguments equal `flag`.
pub open spec fn count_flag(args: Seq<Seq<char>>, flag: Seq<char>) -> nat
    decreases args.len(),
{
    if args.len() == 0 {
        0
    } else {
        count_flag(args.drop_last(), flag) + (if args.last() == flag {
            1nat
        } else {
            0nat
        })
    }
}

proof fn lemma_count_concat(a: Seq<Seq<char>>, b: Seq<Seq<char>>, flag: Seq<char>)
    ensures
        count_flag(a + b, flag) == count_flag(a, flag) + count_flag(b, flag),
    decreases b.len(),
{
    if b.len() > 0 {
        lemma_count_concat(a, b.drop_last(), flag);
        assert((a + b).drop_last() =~= a + b.drop_last());
    } else {
        assert(a + b =~= a);
    }
}

proof fn lemma_count_none(a: Seq<Seq<char>>, flag: Seq<char>)
    requires
        forall|i: int| 0 <= i < a.len() ==> a[i] != flag,
    ensures
        count_flag(a, flag) == 0,
    decreases a.len(),
{
    if a.len() > 0 {
        lemma_count_none(a.drop_last(), flag);
    }
}

proof fn lemma_count_dshow(
    head: Seq<Seq<char>>,
    tail: Seq<char>,
    flag: Seq<char>,
)
    requires
        forall|i: int| 0 <= i < head.len() ==> head[i] != flag,
        tail != flag,
    ensures
        count_flag(head + seq![flag] + seq![tail], flag) == 1,
{
    lemma_count_none(head, flag);
    lemma_count_concat(head, seq![flag], flag);
    lemma_count_concat(head + seq![flag], seq![tail], flag);
    reveal_with_fuel(count_flag, 2);
    assert(seq![flag].drop_last() =~= Seq::<Seq<char>>::empty());
    assert(seq![tail].drop_last() =~= Seq::<Seq<char>>::empty());
}

proof fn lemma_dshow_input_count(buffer_size: u32, device: Seq<char>, mic_only: bool)
    ensures
        count_flag(
            if mic_only {
                dshow_mic_only_input(buffer_size, device)
            } else {
                dshow_input(buffer_size, device)
            },
            "-i"@,
        ) == 1,
{
    reveal_strlit("-i");
    reveal_strlit("-f");
    reveal_strlit("dshow");
    reveal_strlit("-thread_queue_size");
    reveal_strlit("4096");
    reveal_strlit("-rtbufsize");
    reveal_strlit("30M");
    reveal_strlit("150M");
    reveal_strlit("-audio_buffer_size");
    reveal_strlit("-use_wallclock_as_timestamps");
    reveal_strlit("1");
    reveal_strlit("audio=");
    crate::text::law_read_digits_of_rendering(buffer_size as nat, u32::MAX as nat);
    let tail = "audio="@ + device;
    assert(tail[0] == 'a');
    assert(dec_digits(buffer_size as nat)[0] != '-');
    assert("-f"@[1] == 'f');
    assert("-i"@[1] == 'i');
    if mic_only {
        let head = seq![
            "-f"@, "dshow"@, "-use_wallclock_as_timestamps"@, "1"@, "-thread_queue_size"@,
            "4096"@, "-rtbufsize"@, "150M"@, "-audio_buffer_size"@, dec_digits(buffer_size as nat),
        ];
        assert(dshow_mic_only_input(buffer_size, device) =~= head + seq!["-i"@] + seq![tail]);
        assert forall|i: int| 0 <= i < head.len() implies head[i] != "-i"@ by {
            if i == 0 {
                assert(head[i][1] != "-i"@[1]);
            } else if i == 3 {
                assert(head[i].len() == 1);
            } else if i == 9 {
                assert(head[i][0] != "-i"@[0]);
            } else {
                assert(head[i].len() != 2);
            }
        }
        lemma_count_dshow(head, tail, "-i"@);
    } else {
        let head = seq![
            "-f"@, "dshow"@, "-thread_queue_size"@, "4096"@, "-rtbufsize"@, "30M"@,
            "-audio_buffer_size"@, dec_digits(buffer_size as nat),
        ];
        assert(dshow_input(buffer_size, device) =~= head + seq!["-i"@] + seq![tail]);
        assert forall|i: int| 0 <= i < head.len() implies head[i] != "-i"@ by {
            if i == 0 {
                assert(head[i][1] != "-i"@[1]);
            } else if head[i] == dec_digits(buffer_size as nat) {
                assert(head[i][0] != "-i"@[0]);
            }
        }
        lemma_count_dshow(head, tail, "-i"@);
    }
}

/// The audio inputs and the stream mapping agree: the mapping takes the
/// video from the input that follows the audio inputs (as many as there are
/// `-i` flags among them), and it takes the mixed `[outa]` track exactly
/// when the mixing filter graph exists.
pub proof fn law_audio_inputs_match_mapping(c: AudioConfig)
    ensures
        count_flag(audio_input_args(c), "-i"@) == (if c.enabled && c.microphone_enabled {
            2nat
        } else {
            1nat
        }),
        stream_mapping(c)[3] == dec_digits(count_flag(audio_input_args(c), "-i"@)) + ":v"@,
        (stream_mapping(c)[1] == "[outa]"@) <==> audio_mix_filter(c) is Some,
{
    reveal_strlit("-i");
    reveal_strlit("-f");
    reveal_strlit("lavfi");
    reveal_strlit("anullsrc=r=48000:cl=stereo");
    reveal_strlit("2:v");
    reveal_strlit("1:v");
    reveal_strlit(":v");
    reveal_strlit("[outa]");
    reveal_strlit("0:a");
    if c.enabled && c.microphone_enabled {
        lemma_dshow_input_count(c.buffer_size, c.device@, false);
        lemma_dshow_input_count(c.buffer_size, c.microphone_device@, false);
        lemma_count_concat(
            dshow_input(c.buffer_size, c.device@),
            dshow_input(c.buffer_size, c.microphone_device@),
            "-i"@,
        );
        assert(dec_digits(2) =~= seq!['2']);
        assert(dec_digits(2) + ":v"@ =~= "2:v"@);
    } else {
        if c.enabled {
            lemma_dshow_input_count(c.buffer_size, c.device@, false);
        } else if c.microphone_enabled {
            lemma_dshow_input_count(c.buffer_size, c.microphone_device@, true);
        } else {
            let s = silent_input();
            assert(s =~= seq!["-f"@, "lavfi"@] + seq!["-i"@] + seq!["anullsrc=r=48000:cl=stereo"@]);
            assert("-f"@[1] != "-i"@[1]);
            lemma_count_dshow(seq!["-f"@, "lavfi"@], "anullsrc=r=48000:cl=stereo"@, "-i"@);
        }
        assert(dec_digits(1) =~= seq!['1']);
        assert(dec_digits(1) + ":v"@ =~= "1:v"@);
        assert("0:a"@[0] != "[outa]"@[0]);
    }
}

/// The mixing graph and the single-source filter never both apply, and one
/// of them applies exactly when some audio source is captured.
pub proof fn law_audio_filters_exclusive(c: AudioConfig)
    ensures
        !(audio_mix_filter(c) is Some && single_audio_filter(c) is Some),
        (audio_mix_filter(c) is Some || single_audio_filter(c) is Some) <==> (c.enabled
            || c.microphone_enabled),
{
}

} // verus!
