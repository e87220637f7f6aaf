//! The FFmpeg process that encodes a captured stream to HLS.
use vstd::prelude::*;

use crate::db::DbSettings;
use crate::encoder::{kbits, kbits_string};
use crate::stream_config::AudioPlan;
use crate::output::{build_hls_muxer_args, build_hls_output_args, hls_muxer_args, hls_output_args};
use crate::text::{
    dec_digits, push_arg, push_args, push_str_arg, push_u64, seconds3, seconds_from_millis,
    copy_string,
};

verus! {

/// Everything that decides the FFmpeg command line of a stream.
#[derive(Debug, Clone)]
pub struct EncoderLaunch {
    pub width: u32,
    pub height: u32,
    pub fps: u32,
    pub bitrate: u32,
    pub list_size: u32,
    /// Segment duration in milliseconds.
    pub hls_time_ms: u32,
    pub output_dir: String,
    pub stream_id: String,
    pub codec: String,
    pub preset_args: Vec<String>,
    pub enable_audio: bool,
    pub enable_microphone: bool,
    pub audio_bitrate: u32,
    pub audio_buffer_size: u32,
    pub audio_offset: i32,
    pub audio_device: String,
    pub microphone_device: String,
    pub audio_filters: String,
    pub microphone_filters: String,
}

/// `-itsoffset` with the offset in seconds, when there is an offset.
pub open spec fn itsoffset_args(offset_ms: i32) -> Seq<Seq<char>> {
    if offset_ms != 0 {
        seq!["-itsoffset"@, seconds3(offset_ms as int)]
    } else {
        Seq::empty()
    }
}

/// A DirectShow audio input stamped with the system clock.
pub open spec fn wallclock_input(device: Seq<char>, buffer_size: u32) -> Seq<Seq<char>> {
    seq![
        "-f"@, "dshow"@, "-use_wallclock_as_timestamps"@, "1"@, "-i"@, "audio="@ + device,
        "-thread_queue_size"@, "512"@, "-audio_buffer_size"@, dec_digits(buffer_size as nat),
    ]
}

/// One input of the mixing graph: resampled to 48 kHz stereo, then its
/// effect filters when it has any.
pub open spec fn mix_branch(input: Seq<char>, filters: Seq<char>, label: Seq<char>) -> Seq<char> {
    input + "aresample=48000,aformat=channel_layouts=stereo"@ + (if filters.len() > 0 {
        ","@ + filters
    } else {
        Seq::empty()
    }) + label
}

/// The graph that merges system audio (input 0) and microphone (input 1)
/// into one stereo track `[outa]`.
pub open spec fn merge_graph(audio_filters: Seq<char>, microphone_filters: Seq<char>) -> Seq<char> {
    mix_branch("[0:a]"@, audio_filters, "[a0];"@) + mix_branch(
        "[1:a]"@,
        microphone_filters,
        "[a1];"@,
    ) + "[a0][a1]amerge=inputs=2,pan=stereo|c0<c0+c2|c1<c1+c3[outa]"@
}

/// Resampling to 48 kHz, then the given filters when there are any.
pub open spec fn resample_then(filters: Seq<char>) -> Seq<char> {
    if filters.len() > 0 {
        "aresample=48000,"@ + filters
    } else {
        "aresample=48000"@
    }
}

/// The audio inputs of the command, with the mixing graph when both sources
/// are captured.
pub open spec fn launch_audio_inputs(l: EncoderLaunch) -> Seq<Seq<char>> {
    if l.enable_audio && l.enable_microphone {
        itsoffset_args(l.audio_offset) + wallclock_input(l.audio_device@, l.audio_buffer_size)
            + wallclock_input(l.microphone_device@, l.audio_buffer_size) + seq![
            "-filter_complex"@,
            merge_graph(l.audio_filters@, l.microphone_filters@),
        ]
    } else if l.enable_audio {
        itsoffset_args(l.audio_offset) + wallclock_input(l.audio_device@, l.audio_buffer_size)
    } else if l.enable_microphone {
        itsoffset_args(l.audio_offset) + wallclock_input(
            l.microphone_device@,
            l.audio_buffer_size,
        )
    } else {
        seq!["-f"@, "lavfi"@, "-i"@, "anullsrc=r=48000:cl=stereo"@]
    }
}

/// The raw RGBA video read from standard input.
pub open spec fn launch_video_input(l: EncoderLaunch) -> Seq<Seq<char>> {
    seq![
        "-f"@, "rawvideo"@, "-pix_fmt"@, "rgba"@, "-s"@,
        dec_digits(l.width as nat) + "x"@ + dec_digits(l.height as nat), "-r"@,
        dec_digits(l.fps as nat), "-i"@, "pipe:0"@,
    ]
}

/// Exactly one of system audio and microphone is captured.
pub open spec fn single_source(l: EncoderLaunch) -> bool {
    (l.enable_audio || l.enable_microphone) && !(l.enable_audio && l.enable_microphone)
}

/// The filter of a single audio source, after all inputs.
pub open spec fn launch_single_filter(l: EncoderLaunch) -> Seq<Seq<char>> {
    if l.enable_audio && !l.enable_microphone {
        seq!["-filter:a"@, resample_then(l.audio_filters@)]
    } else if !l.enable_audio && l.enable_microphone {
        seq!["-filter:a"@, resample_then(l.microphone_filters@)]
    } else {
        Seq::empty()
    }
}

/// The index of the video input: after the audio inputs.
pub open spec fn video_input_index(l: EncoderLaunch) -> nat {
    if l.enable_audio && l.enable_microphone {
        2
    } else {
        1
    }
}

/// The stream mapping: the merged or single audio, then the video input.
pub open spec fn launch_mapping(l: EncoderLaunch) -> Seq<Seq<char>> {
    seq![
        "-map"@,
        if l.enable_audio && l.enable_microphone {
            "[outa]"@
        } else {
            "0:a"@
        },
        "-map"@,
        dec_digits(video_input_index(l)) + ":v"@,
    ]
}

/// The video encoding arguments.
pub open spec fn launch_video_encoding(l: EncoderLaunch) -> Seq<Seq<char>> {
    seq!["-c:v"@, l.codec@] + l.preset_args.deep_view() + seq![
        "-b:v"@, kbits((l.bitrate / 1000) as nat), "-maxrate"@, kbits((l.bitrate / 1000) as nat),
        "-bufsize"@, kbits((l.bitrate / 500) as nat), "-g"@, dec_digits(l.fps as nat),
        "-color_range"@, "tv"@, "-colorspace"@, "bt709"@, "-color_primaries"@, "bt709"@,
        "-color_trc"@, "bt709"@, "-vf"@, "scale=w=trunc(iw/2)*2:h=trunc(ih/2)*2,format=yuv420p"@,
    ]
}

/// The filters of the one captured source: the system audio chain when
/// system audio is on, else the microphone chain.
pub open spec fn single_source_filters(l: EncoderLaunch) -> Seq<char> {
    if l.enable_audio {
        l.audio_filters@
    } else {
        l.microphone_filters@
    }
}

/// The audio encoding arguments, then the `-af` filter of a single source:
/// that source's own effect filters (when there are any) after resampling,
/// so that the microphone alone keeps its own chain and volume.
pub open spec fn launch_audio_encoding(l: EncoderLaunch) -> Seq<Seq<char>> {
    seq![
        "-c:a"@, "aac"@, "-b:a"@, kbits(l.audio_bitrate as nat), "-ar"@, "48000"@, "-ac"@, "2"@,
        "-aac_coder"@, "fast"@,
    ] + (if single_source(l) {
        seq!["-af"@, resample_then(single_source_filters(l))]
    } else {
        Seq::empty()
    })
}

/// The whole FFmpeg command line of a stream started at `timestamp`.
pub open spec fn launch_args(l: EncoderLaunch, timestamp: u64) -> Seq<Seq<char>> {
    seq!["-y"@, "-fflags"@, "+genpts"@] + launch_audio_inputs(l) + launch_video_input(l)
        + launch_single_filter(l) + launch_mapping(l) + launch_video_encoding(l)
        + launch_audio_encoding(l) + hls_muxer_args(l.list_size, l.hls_time_ms) + (if !l.enable_audio {
        seq!["-shortest"@]
    } else {
        Seq::empty()
    }) + hls_output_args(l.output_dir@, l.stream_id@, timestamp)
}

fn push_itsoffset(args: &mut Vec<String>, offset_ms: i32)
    ensures
        final(args).deep_view() == old(args).deep_view() + itsoffset_args(offset_ms),
{
    if offset_ms != 0 {
        push_str_arg(args, "-itsoffset");
        push_arg(args, seconds_from_millis(offset_ms));
    }
    assert(final(args).deep_view() =~= old(args).deep_view() + itsoffset_args(offset_ms));
}

fn push_wallclock_input(args: &mut Vec<String>, device: &String, buffer_size: u32)
    ensures
        final(args).deep_view() == old(args).deep_view() + wallclock_input(device@, buffer_size),
{
    push_str_arg(args, "-f");
    push_str_arg(args, "dshow");
    push_str_arg(args, "-use_wallclock_as_timestamps");
    push_str_arg(args, "1");
    push_str_arg(args, "-i");
    let mut d = String::from_str("audio=");
    d.append(device.as_str());
    push_arg(args, d);
    push_str_arg(args, "-thread_queue_size");
    push_str_arg(args, "512");
    push_str_arg(args, "-audio_buffer_size");
    let mut b = String::new();
    push_u64(&mut b, buffer_size as u64);
    assert(b@ =~= dec_digits(buffer_size as nat));
    push_arg(args, b);
    assert(final(args).deep_view() =~= old(args).deep_view() + wallclock_input(device@, buffer_size));
}

fn append_mix_branch(s: &mut String, input: &str, filters: &String, label: &str)
    ensures
        final(s)@ == old(s)@ + mix_branch(input@, filters@, label@),
{
    s.append(input);
    s.append("aresample=48000,aformat=channel_layouts=stereo");
    if !filters.as_str().is_empty() {
        s.append(",");
        s.append(filters.as_str());
    }
    s.append(label);
    assert(final(s)@ =~= old(s)@ + mix_branch(input@, filters@, label@));
}

fn resample_then_string(filters: &String) -> (r: String)
    ensures
        r@ == resample_then(filters@),
{
    if filters.as_str().is_empty() {
        String::from_str("aresample=48000")
    } else {
        let mut s = String::from_str("aresample=48000,");
        s.append(filters.as_str());
        s
    }
}

fn push_audio_inputs(args: &mut Vec<String>, l: &EncoderLaunch)
    ensures
        final(args).deep_view() == old(args).deep_view() + launch_audio_inputs(*l),
{
    if l.enable_audio && l.enable_microphone {
        push_itsoffset(args, l.audio_offset);
        push_wallclock_input(args, &l.audio_device, l.audio_buffer_size);
        push_wallclock_input(args, &l.microphone_device, l.audio_buffer_size);
        push_str_arg(args, "-filter_complex");
        let mut g = String::new();
        append_mix_branch(&mut g, "[0:a]", &l.audio_filters, "[a0];");
        append_mix_branch(&mut g, "[1:a]", &l.microphone_filters, "[a1];");
        g.append("[a0][a1]amerge=inputs=2,pan=stereo|c0<c0+c2|c1<c1+c3[outa]");
        assert(g@ =~= merge_graph(l.audio_filters@, l.microphone_filters@));
        push_arg(args, g);
    } else if l.enable_audio {
        push_itsoffset(args, l.audio_offset);
        push_wallclock_input(args, &l.audio_device, l.audio_buffer_size);
    } else if l.enable_microphone {
        push_itsoffset(args, l.audio_offset);
        push_wallclock_input(args, &l.microphone_device, l.audio_buffer_size);
    } else {
        push_str_arg(args, "-f");
        push_str_arg(args, "lavfi");
        push_str_arg(args, "-i");
        push_str_arg(args, "anullsrc=r=48000:cl=stereo");
    }
    assert(final(args).deep_view() =~= old(args).deep_view() + launch_audio_inputs(*l));
}

fn push_video_part(args: &mut Vec<String>, l: &EncoderLaunch)
    ensures
        final(args).deep_view() == old(args).deep_view() + launch_video_input(*l)
            + launch_single_filter(*l) + launch_mapping(*l),
{
    push_str_arg(args, "-f");
    push_str_arg(args, "rawvideo");
    push_str_arg(args, "-pix_fmt");
    push_str_arg(args, "rgba");
    push_str_arg(args, "-s");
    let mut size = String::new();
    push_u64(&mut size, l.width as u64);
    size.append("x");
    push_u64(&mut size, l.height as u64);
    assert(size@ =~= dec_digits(l.width as nat) + "x"@ + dec_digits(l.height as nat));
    push_arg(args, size);
    push_str_arg(args, "-r");
    let mut r = String::new();
    push_u64(&mut r, l.fps as u64);
    assert(r@ =~= dec_digits(l.fps as nat));
    push_arg(args, r);
    push_str_arg(args, "-i");
    push_str_arg(args, "pipe:0");
    let ghost after_video = args.deep_view();
    if l.enable_audio && !l.enable_microphone {
        push_str_arg(args, "-filter:a");
        push_arg(args, resample_then_string(&l.audio_filters));
    } else if !l.enable_audio && l.enable_microphone {
        push_str_arg(args, "-filter:a");
        push_arg(args, resample_then_string(&l.microphone_filters));
    }
    assert(args.deep_view() =~= after_video + launch_single_filter(*l));
    let ghost after_filter = args.deep_view();
    push_str_arg(args, "-map");
    if l.enable_audio && l.enable_microphone {
        push_str_arg(args, "[outa]");
    } else {
        push_str_arg(args, "0:a");
    }
    push_str_arg(args, "-map");
    let mut v = String::new();
    push_u64(&mut v, if l.enable_audio && l.enable_microphone { 2 } else { 1 });
    v.append(":v");
    push_arg(args, v);
    assert(args.deep_view() =~= after_filter + launch_mapping(*l));
    assert(final(args).deep_view() =~= old(args).deep_view() + launch_video_input(*l)
        + launch_single_filter(*l) + launch_mapping(*l));
}

fn push_video_encoding(args: &mut Vec<String>, l: &EncoderLaunch)
    ensures
        final(args).deep_view() == old(args).deep_view() + launch_video_encoding(*l),
{
    push_str_arg(args, "-c:v");
    push_arg(args, copy_string(&l.codec));
    push_args(args, &l.preset_args);
    push_str_arg(args, "-b:v");
    push_arg(args, kbits_string(l.bitrate / 1000));
    push_str_arg(args, "-maxrate");
    push_arg(args, kbits_string(l.bitrate / 1000));
    push_str_arg(args, "-bufsize");
    push_arg(args, kbits_string(l.bitrate / 500));
    push_str_arg(args, "-g");
    let mut g = String::new();
    push_u64(&mut g, l.fps as u64);
    assert(g@ =~= dec_digits(l.fps as nat));
    push_arg(args, g);
    push_str_arg(args, "-color_range");
    push_str_arg(args, "tv");
    push_str_arg(args, "-colorspace");
    push_str_arg(args, "bt709");
    push_str_arg(args, "-color_primaries");
    push_str_arg(args, "bt709");
    push_str_arg(args, "-color_trc");
    push_str_arg(args, "bt709");
    push_str_arg(args, "-vf");
    push_str_arg(args, "scale=w=trunc(iw/2)*2:h=trunc(ih/2)*2,format=yuv420p");
    assert(args.deep_view() =~= old(args).deep_view() + launch_video_encoding(*l));
}

fn push_audio_encoding(args: &mut Vec<String>, l: &EncoderLaunch)
    ensures
        final(args).deep_view() == old(args).deep_view() + launch_audio_encoding(*l),
{
    push_str_arg(args, "-c:a");
    push_str_arg(args, "aac");
    push_str_arg(args, "-b:a");
    push_arg(args, kbits_string(l.audio_bitrate));
    push_str_arg(args, "-ar");
    push_str_arg(args, "48000");
    push_str_arg(args, "-ac");
    push_str_arg(args, "2");
    push_str_arg(args, "-aac_coder");
    push_str_arg(args, "fast");
    if (l.enable_audio || l.enable_microphone) && !(l.enable_audio && l.enable_microphone) {
        push_str_arg(args, "-af");
        if l.enable_audio {
            push_arg(args, resample_then_string(&l.audio_filters));
        } else {
            push_arg(args, resample_then_string(&l.microphone_filters));
        }
    }
    assert(args.deep_view() =~= old(args).deep_view() + launch_audio_encoding(*l));
}

/// The FFmpeg command line (without the program) that encodes the stream
/// described by `launch`, started at `timestamp` (seconds since the Unix
/// epoch, used in the segment names).
pub fn ffmpeg_command_args(launch: &EncoderLaunch, timestamp: u64) -> (r: Vec<String>)
    ensures
        r.deep_view() == launch_args(*launch, timestamp),
{
    let mut args: Vec<String> = Vec::new();
    push_str_arg(&mut args, "-y");
    push_str_arg(&mut args, "-fflags");
    push_str_arg(&mut args, "+genpts");
    push_audio_inputs(&mut args, launch);
    push_video_part(&mut args, launch);
    push_video_encoding(&mut args, launch);
    push_audio_encoding(&mut args, launch);
    let hls = build_hls_muxer_args(launch.list_size, launch.hls_time_ms);
    push_args(&mut args, &hls);
    if !launch.enable_audio {
        push_str_arg(&mut args, "-shortest");
    }
    let out = build_hls_output_args(launch.output_dir.as_str(), launch.stream_id.as_str(), timestamp);
    push_args(&mut args, &out);
    assert(args.deep_view() =~= launch_args(*launch, timestamp));
    args
}

/// The size in bytes of an RGBA frame of the given dimensions.
pub open spec fn rgba_frame_size(width: u32, height: u32) -> nat {
    width as nat * height as nat * 4
}

/// Checks that a frame has the size the encoder was started with; the error
/// message names both sizes.
pub fn check_frame_size(width: u32, height: u32, len: usize) -> (r: Result<(), String>)
    requires
        rgba_frame_size(width, height) <= u32::MAX,
    ensures
        r is Ok <==> len == rgba_frame_size(width, height),
        r matches Err(m) ==> m@ == "Frame size mismatch: expected "@ + dec_digits(
            rgba_frame_size(width, height),
        ) + ", got "@ + dec_digits(len as nat),
{
    assert(width as nat * height as nat <= u32::MAX) by (nonlinear_arith)
        requires width as nat * height as nat * 4 <= u32::MAX;
    let expected = (width * height * 4) as usize;
    if len != expected {
        let mut m = String::from_str("Frame size mismatch: expected ");
        push_u64(&mut m, expected as u64);
        m.append(", got ");
        push_u64(&mut m, len as u64);
        return Err(m);
    }
    Ok(())
}


/// The launch of a stream's encoder: the canvas, rate and HLS settings and
/// the audio device from the global settings, the capture decisions of
/// `plan`, and the chosen codec.
pub open spec fn launch_from(
    settings: DbSettings,
    plan: AudioPlan,
    output_dir: Seq<char>,
    stream_id: Seq<char>,
    codec: Seq<char>,
    preset_args: Seq<Seq<char>>,
    l: EncoderLaunch,
) -> bool {
    &&& l.width == settings.width
    &&& l.height == settings.height
    &&& l.fps == settings.framerate
    &&& l.bitrate == settings.bitrate
    &&& l.list_size == settings.hls_list_size
    &&& l.hls_time_ms == settings.hls_time_ms
    &&& l.output_dir@ == output_dir
    &&& l.stream_id@ == stream_id
    &&& l.codec@ == codec
    &&& l.preset_args.deep_view() == preset_args
    &&& l.enable_audio == plan.enable_audio
    &&& l.enable_microphone == plan.enable_microphone
    &&& l.audio_bitrate == settings.audio_bitrate
    &&& l.audio_buffer_size == settings.audio_buffer_size
    &&& l.audio_offset == settings.audio_offset
    &&& l.audio_device@ == settings.audio_device@
    &&& l.microphone_device@ == plan.microphone_device@
    &&& l.audio_filters@ == plan.audio_filters@
    &&& l.microphone_filters@ == plan.microphone_filters@
}

/// Assembles the encoder launch of a stream.
pub fn encoder_launch(
    settings: &DbSettings,
    plan: &AudioPlan,
    output_dir: &str,
    stream_id: &str,
    codec: &str,
    preset_args: &Vec<String>,
) -> (r: EncoderLaunch)
    ensures
        launch_from(*settings, *plan, output_dir@, stream_id@, codec@, preset_args.deep_view(), r),
{
    EncoderLaunch {
        width: settings.width,
        height: settings.height,
        fps: settings.framerate,
        bitrate: settings.bitrate,
        list_size: settings.hls_list_size,
        hls_time_ms: settings.hls_time_ms,
        output_dir: String::from_str(output_dir),
        stream_id: String::from_str(stream_id),
        codec: String::from_str(codec),
        preset_args: crate::text::copy_args(preset_args),
        enable_audio: plan.enable_audio,
        enable_microphone: plan.enable_microphone,
        audio_bitrate: settings.audio_bitrate,
        audio_buffer_size: settings.audio_buffer_size,
        audio_offset: settings.audio_offset,
        audio_device: copy_string(&settings.audio_device),
        microphone_device: copy_string(&plan.microphone_device),
        audio_filters: copy_string(&plan.audio_filters),
        microphone_filters: copy_string(&plan.microphone_filters),
    }
}

/// The playlist FFmpeg writes for a stream is the file that the HLS server
/// publishes under the stream's URL path: both end with
/// `/<id>/<id>.m3u8` for the sanitized identifier, below the streams folder
/// and below `/streams` respectively.
pub proof fn law_published_path_matches_playlist(streams_dir: Seq<char>, id: Seq<char>)
    ensures
        ({
            let safe = crate::capture::sanitized(id);
            let suffix = "/"@ + safe + "/"@ + safe + ".m3u8"@;
            &&& crate::output::playlist_path_of(streams_dir, safe) == streams_dir + suffix
            &&& crate::capture::stream_hls_path(id) == "/streams"@ + suffix
        }),
{
    reveal_strlit("/streams/");
    reveal_strlit("/streams");
    reveal_strlit("/");
    let safe = crate::capture::sanitized(id);
    assert(crate::output::playlist_path_of(streams_dir, safe) =~= streams_dir + ("/"@ + safe + "/"@
        + safe + ".m3u8"@));
    assert("/streams/"@ =~= "/streams"@ + "/"@);
    assert(crate::capture::stream_hls_path(id) =~= "/streams"@ + ("/"@ + safe + "/"@ + safe
        + ".m3u8"@));
}

/// With one audio source, both audio filter options of the command carry
/// that source's own chain: the `-filter:a` after the inputs and the final
/// `-af` agree, so the microphone alone is filtered with the microphone
/// presets and volume, and system audio alone with its own.
pub proof fn law_single_source_keeps_its_filters(l: EncoderLaunch)
    requires
        single_source(l),
    ensures
        launch_single_filter(l) == seq!["-filter:a"@, resample_then(single_source_filters(l))],
        launch_audio_encoding(l).last() == resample_then(single_source_filters(l)),
        !l.enable_audio ==> single_source_filters(l) == l.microphone_filters@,
{
}

/// The configured audio offset shifts every captured audio source: when
/// system audio, the microphone or both are captured and the offset is not
/// zero, the command begins, right after its three leading flags, with
/// `-itsoffset` and the offset in seconds, followed by the first DirectShow
/// input; otherwise the inputs follow the leading flags directly.
pub proof fn law_audio_offset_shifts_captured_audio(l: EncoderLaunch, timestamp: u64)
    ensures
        (l.enable_audio || l.enable_microphone) && l.audio_offset != 0 ==> {
            &&& launch_args(l, timestamp)[3] == "-itsoffset"@
            &&& launch_args(l, timestamp)[4] == seconds3(l.audio_offset as int)
            &&& launch_args(l, timestamp)[5] == "-f"@
            &&& launch_args(l, timestamp)[6] == "dshow"@
        },
        !(l.enable_audio || l.enable_microphone) || l.audio_offset == 0 ==> {
            &&& launch_args(l, timestamp)[3] == "-f"@
            &&& launch_args(l, timestamp)[4] == (if l.enable_audio || l.enable_microphone {
                "dshow"@
            } else {
                "lavfi"@
            })
        },
{
    let head: Seq<Seq<char>> = seq!["-y"@, "-fflags"@, "+genpts"@];
    let ins = launch_audio_inputs(l);
    let a = launch_args(l, timestamp);
    assert(ins.len() >= 4);
    let rest = launch_video_input(l) + launch_single_filter(l) + launch_mapping(l)
        + launch_video_encoding(l) + launch_audio_encoding(l) + hls_muxer_args(
        l.list_size,
        l.hls_time_ms,
    ) + (if !l.enable_audio {
        seq!["-shortest"@]
    } else {
        Seq::empty()
    }) + hls_output_args(l.output_dir@, l.stream_id@, timestamp);
    assert(a =~= head + ins + rest);
    assert forall|k: int| 0 <= k < 4 implies #[trigger] a[3 + k] == ins[k] by {
        assert((head + ins + rest)[3 + k] == (head + ins)[3 + k]);
    }
    assert(a[3] == ins[0]);
    assert(a[4] == ins[1]);
    assert(a[5] == ins[2]);
    assert(a[6] == ins[3]);
}

} // verus!
