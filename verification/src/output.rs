//! HLS output settings and the FFmpeg arguments that produce them.
use vstd::prelude::*;

use crate::text::{dec_digits, push_arg, push_str_arg, push_u64, thousandths, thousandths_to_decimal, u64_to_decimal};

verus! {

/// HLS output settings. The segment duration is in milliseconds.
#[derive(Debug, Clone)]
pub struct HlsConfig {
    pub output_dir: String,
    pub stream_id: String,
    pub list_size: u32,
    /// Segment duration in milliseconds.
    pub hls_time_ms: u32,
    /// Low-latency mode (about 2 s of delay instead of about 10 s).
    pub low_latency: bool,
}

/// The folder of a stream: `<output_dir>/<stream_id>`.
pub open spec fn stream_dir_of(output_dir: Seq<char>, stream_id: Seq<char>) -> Seq<char> {
    output_dir + "/"@ + stream_id
}

/// The playlist of a stream: `<output_dir>/<stream_id>/<stream_id>.m3u8`.
pub open spec fn playlist_path_of(output_dir: Seq<char>, stream_id: Seq<char>) -> Seq<char> {
    stream_dir_of(output_dir, stream_id) + "/"@ + stream_id + ".m3u8"@
}

/// The segment file name pattern of a stream started at `timestamp`
/// (seconds since the Unix epoch).
pub open spec fn segment_pattern_of(output_dir: Seq<char>, stream_id: Seq<char>, timestamp: u64) -> Seq<char> {
    stream_dir_of(output_dir, stream_id) + "/"@ + stream_id + "_"@ + dec_digits(timestamp as nat)
        + "_seg_%03d.m4s"@
}

/// The HLS muxer arguments: fMP4 segments of the given duration, a playlist
/// of `list_size` entries whose old segments are deleted, or, for a size of 0,
/// an event playlist that keeps every segment.
pub open spec fn hls_muxer_args(list_size: u32, hls_time_ms: u32) -> Seq<Seq<char>> {
    seq![
        "-f"@, "hls"@, "-hls_time"@, thousandths(hls_time_ms as nat), "-hls_list_size"@,
        dec_digits(list_size as nat), "-hls_segment_type"@, "fmp4"@, "-hls_fmp4_init_filename"@,
        "init.mp4"@,
    ] + (if list_size == 0 {
        seq!["-hls_playlist_type"@, "event"@]
    } else {
        Seq::empty()
    }) + seq![
        "-hls_flags"@,
        if list_size == 0 {
            "discont_start+independent_segments+program_date_time"@
        } else {
            "delete_segments+discont_start+independent_segments+program_date_time"@
        },
    ]
}

/// The final output arguments: segment file pattern, threads, playlist.
pub open spec fn hls_output_args(output_dir: Seq<char>, stream_id: Seq<char>, timestamp: u64) -> Seq<Seq<char>> {
    seq![
        "-hls_segment_filename"@, segment_pattern_of(output_dir, stream_id, timestamp), "-threads"@,
        "0"@, playlist_path_of(output_dir, stream_id),
    ]
}

/// The HLS muxer arguments for the given playlist size and segment duration.
pub fn build_hls_muxer_args(list_size: u32, hls_time_ms: u32) -> (r: Vec<String>)
    ensures
        r.deep_view() == hls_muxer_args(list_size, hls_time_ms),
{
    let mut args: Vec<String> = Vec::new();
    push_str_arg(&mut args, "-f");
    push_str_arg(&mut args, "hls");
    push_str_arg(&mut args, "-hls_time");
    push_arg(&mut args, thousandths_to_decimal(hls_time_ms));
    push_str_arg(&mut args, "-hls_list_size");
    push_arg(&mut args, u64_to_decimal(list_size as u64));
    push_str_arg(&mut args, "-hls_segment_type");
    push_str_arg(&mut args, "fmp4");
    push_str_arg(&mut args, "-hls_fmp4_init_filename");
    push_str_arg(&mut args, "init.mp4");
    if list_size == 0 {
        push_str_arg(&mut args, "-hls_playlist_type");
        push_str_arg(&mut args, "event");
        push_str_arg(&mut args, "-hls_flags");
        push_str_arg(&mut args, "discont_start+independent_segments+program_date_time");
    } else {
        push_str_arg(&mut args, "-hls_flags");
        push_str_arg(&mut args, "delete_segments+discont_start+independent_segments+program_date_time");
    }
    assert(args.deep_view() =~= hls_muxer_args(list_size, hls_time_ms));
    args
}

fn stream_dir_string(output_dir: &str, stream_id: &str) -> (r: String)
    ensures
        r@ == stream_dir_of(output_dir@, stream_id@),
{
    let mut s = String::from_str(output_dir);
    s.append("/");
    s.append(stream_id);
    s
}

/// The stream's playlist path.
pub fn playlist_path_for(output_dir: &str, stream_id: &str) -> (r: String)
    ensures
        r@ == playlist_path_of(output_dir@, stream_id@),
{
    let mut s = stream_dir_string(output_dir, stream_id);
    s.append("/");
    s.append(stream_id);
    s.append(".m3u8");
    s
}

/// The stream's segment file pattern for a start at `timestamp`.
pub fn segment_pattern_for(output_dir: &str, stream_id: &str, timestamp: u64) -> (r: String)
    ensures
        r@ == segment_pattern_of(output_dir@, stream_id@, timestamp),
{
    let mut s = stream_dir_string(output_dir, stream_id);
    s.append("/");
    s.append(stream_id);
    s.append("_");
    push_u64(&mut s, timestamp);
    s.append("_seg_%03d.m4s");
    s
}

/// The final output arguments for a start at `timestamp`.
pub fn build_hls_output_args(output_dir: &str, stream_id: &str, timestamp: u64) -> (r: Vec<String>)
    ensures
        r.deep_view() == hls_output_args(output_dir@, stream_id@, timestamp),
{
    let mut args: Vec<String> = Vec::new();
    push_str_arg(&mut args, "-hls_segment_filename");
    push_arg(&mut args, segment_pattern_for(output_dir, stream_id, timestamp));
    push_str_arg(&mut args, "-threads");
    push_str_arg(&mut args, "0");
    push_arg(&mut args, playlist_path_for(output_dir, stream_id));
    assert(args.deep_view() =~= hls_output_args(output_dir@, stream_id@, timestamp));
    args
}

/// The current time in whole seconds since the Unix epoch, from
/// `SystemTime::now` and `duration_since(UNIX_EPOCH)`; `None` when the clock
/// reads a time before the epoch. Nothing is claimed of the value.
#[verifier::external_body]
fn unix_time_secs() -> (r: Option<u64>) {
    match std::time::SystemTime::now().duration_since(std::time::UNIX_EPOCH) {
        Ok(d) => Some(d.as_secs()),
        Err(_) => None,
    }
}

impl HlsConfig {
    /// Standard HLS settings.
    pub fn new(output_dir: &str, stream_id: &str, list_size: u32, hls_time_ms: u32) -> (r: Self)
        ensures
            r.output_dir@ == output_dir@,
            r.stream_id@ == stream_id@,
            r.list_size == list_size,
            r.hls_time_ms == hls_time_ms,
            !r.low_latency,
    {
        HlsConfig {
            output_dir: String::from_str(output_dir),
            stream_id: String::from_str(stream_id),
            list_size,
            hls_time_ms,
            low_latency: false,
        }
    }

    /// Low-latency settings: a playlist of 3 segments of half a second.
    pub fn new_low_latency(output_dir: &str, stream_id: &str) -> (r: Self)
        ensures
            r.output_dir@ == output_dir@,
            r.stream_id@ == stream_id@,
            r.list_size == 3,
            r.hls_time_ms == 500,
            r.low_latency,
    {
        HlsConfig {
            output_dir: String::from_str(output_dir),
            stream_id: String::from_str(stream_id),
            list_size: 3,
            hls_time_ms: 500,
            low_latency: true,
        }
    }

    /// The stream's folder.
    pub fn stream_dir(&self) -> (r: String)
        ensures
            r@ == stream_dir_of(self.output_dir@, self.stream_id@),
    {
        stream_dir_string(self.output_dir.as_str(), self.stream_id.as_str())
    }

    /// The stream's playlist path.
    pub fn playlist_path(&self) -> (r: String)
        ensures
            r@ == playlist_path_of(self.output_dir@, self.stream_id@),
    {
        playlist_path_for(self.output_dir.as_str(), self.stream_id.as_str())
    }

    /// The segment file pattern for a stream started now: it embeds the
    /// current time, so that segments of successive runs never collide.
    /// `None` when the clock reads a time before the Unix epoch.
    pub fn segment_pattern(&self) -> (r: Option<String>)
        ensures
            r matches Some(p) ==> exists|t: u64| p@ == segment_pattern_of(
                self.output_dir@,
                self.stream_id@,
                t,
            ),
    {
        match unix_time_secs() {
            Some(t) => Some(segment_pattern_for(self.output_dir.as_str(), self.stream_id.as_str(), t)),
            None => None,
        }
    }

    /// The HLS muxer arguments.
    pub fn to_ffmpeg_args(&self) -> (r: Vec<String>)
        ensures
            r.deep_view() == hls_muxer_args(self.list_size, self.hls_time_ms),
    {
        build_hls_muxer_args(self.list_size, self.hls_time_ms)
    }

    /// The final output arguments for a stream started now; `None` when the
    /// clock reads a time before the Unix epoch.
    pub fn to_ffmpeg_output_args(&self) -> (r: Option<Vec<String>>)
        ensures
            r matches Some(a) ==> exists|t: u64| a.deep_view() == hls_output_args(
                self.output_dir@,
                self.stream_id@,
                t,
            ),
    {
        match unix_time_secs() {
            Some(t) => Some(build_hls_output_args(self.output_dir.as_str(), self.stream_id.as_str(), t)),
            None => None,
        }
    }

    /// The stream identifier.
    pub fn stream_id(&self) -> (r: &str)
        ensures
            r@ == self.stream_id@,
    {
        self.stream_id.as_str()
    }
}

} // verus!
