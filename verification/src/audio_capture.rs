//! The sizes and choices of the audio capture threads: how many bytes a
//! captured packet holds, when it is written as silence, and how an audio
//! session is listed and named.
use vstd::prelude::*;

use crate::text::{push_char, to_chars};

verus! {

/// The bytes of one audio frame of the mix format: channels times bits per
/// sample, in eighths (computed in the format's 16-bit fields).
pub fn bytes_per_audio_frame(channels: u16, bits_per_sample: u16) -> (r: usize)
    requires
        channels * bits_per_sample <= u16::MAX,
    ensures
        r == channels * bits_per_sample / 8,
{
    ((channels * bits_per_sample) / 8) as usize
}

/// The bytes of a captured packet of `frames` audio frames.
pub fn packet_bytes(frames: u32, bytes_per_frame: usize) -> (r: usize)
    requires
        frames * bytes_per_frame <= usize::MAX,
    ensures
        r == frames * bytes_per_frame,
{
    frames as usize * bytes_per_frame
}

/// Whether the capture marked a packet as silent (its buffer flag 0x2), in
/// which case zeros are written in place of its data.
pub fn packet_is_silent(flags: u32) -> (r: bool)
    ensures
        r == (flags & 2u32 != 0),
{
    flags & 2 != 0
}

/// Whether an audio session is offered for capture: it belongs to a process
/// (a non-zero id) and is active or inactive (not expired).
pub fn session_is_listed(process_id: u32, active_or_inactive: bool) -> (r: bool)
    ensures
        r == (process_id != 0 && active_or_inactive),
{
    process_id != 0 && active_or_inactive
}

/// The name shown for an audio session: its display name, or the process
/// name when the display name is empty.
pub fn session_display_name(display_name: String, process_name: String) -> (r: String)
    ensures
        r@ == (if display_name@.len() == 0 { process_name@ } else { display_name@ }),
{
    if display_name.as_str().is_empty() {
        process_name
    } else {
        display_name
    }
}

/// The last part of a Windows path: what follows its last `\`, or the whole
/// path when it has none.
pub open spec fn last_path_segment(path: Seq<char>) -> Seq<char>
    decreases path.len(),
{
    if path.len() == 0 {
        Seq::empty()
    } else if path.last() == '\\' {
        Seq::empty()
    } else {
        last_path_segment(path.drop_last()).push(path.last())
    }
}

/// The file name of a process image path.
pub fn file_name_of_path(path: &str) -> (r: String)
    ensures
        r@ == last_path_segment(path@),
{
    let chars = to_chars(path);
    let mut name = String::new();
    let n = chars.len();
    for i in 0..n
        invariant
            n == chars@.len(),
            chars@ == path@,
            name@ == last_path_segment(chars@.take(i as int)),
    {
        assert(chars@.take(i + 1).drop_last() =~= chars@.take(i as int));
        let c = chars[i];
        if c == '\\' {
            name = String::new();
        } else {
            push_char(&mut name, c);
        }
    }
    assert(chars@.take(n as int) =~= chars@);
    name
}

} // verus!
