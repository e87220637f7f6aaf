//! Audio devices reported by FFmpeg's DirectShow device listing.
use vstd::prelude::*;

use crate::state::AudioDeviceInfo;
use crate::text::{
    contains_text, first_index, lowercased, range_contains, range_find_char, string_from_chars,
    to_chars, to_lowercase, without_cr,
};

verus! {

/// Whether a device name (lower-cased) names a loopback of the system output:
/// "stereo mix", its Portuguese name "mixagem", "wave out" or "what you hear".
pub open spec fn is_loopback_name(name: Seq<char>) -> bool {
    let l = lowercased(name);
    contains_text(l, "stereo mix"@) || contains_text(l, "mixagem"@) || contains_text(
        l,
        "wave out"@,
    ) || contains_text(l, "what you hear"@)
}

/// The type reported for a device name: `loopback` or `input`.
pub open spec fn device_type_of(name: Seq<char>) -> Seq<char> {
    if is_loopback_name(name) {
        "loopback"@
    } else {
        "input"@
    }
}

/// The device named on one line of the listing: a line that mentions both
/// `(audio)` and `[dshow` names the device whose name stands between its
/// first two double quotes.
pub open spec fn device_on_line(line: Seq<char>) -> Seq<(Seq<char>, Seq<char>)> {
    if contains_text(line, "(audio)"@) && contains_text(line, "[dshow"@) && exists|a: int|
        first_index(line, '"', a) {
        let a = choose|a: int| first_index(line, '"', a);
        let rest = line.skip(a + 1);
        if exists|b: int| first_index(rest, '"', b) {
            let b = choose|b: int| first_index(rest, '"', b);
            let name = rest.take(b);
            seq![(name, device_type_of(name))]
        } else {
            Seq::empty()
        }
    } else {
        Seq::empty()
    }
}

/// The devices named in the listing, line by line in order. Lines end at
/// `\n`; a `\r` before the `\n` is not part of the line.
pub open spec fn devices_in_listing(s: Seq<char>) -> Seq<(Seq<char>, Seq<char>)>
    decreases s.len(),
{
    if s.len() == 0 {
        Seq::empty()
    } else if exists|k: int| first_index(s, '\n', k) {
        let k = choose|k: int| first_index(s, '\n', k);
        device_on_line(without_cr(s.take(k))) + devices_in_listing(s.skip(k + 1))
    } else {
        device_on_line(s)
    }
}

/// The view of a device as (name, type).
pub open spec fn device_view(d: AudioDeviceInfo) -> (Seq<char>, Seq<char>) {
    (d.name@, d.device_type@)
}

fn classify_device(name: &String) -> (r: String)
    ensures
        r@ == device_type_of(name@),
{
    let lower = to_lowercase(name.as_str());
    let l = to_chars(lower.as_str());
    let n = l.len();
    proof {
        assert(l@.subrange(0, n as int) =~= l@);
    }
    if range_contains(&l, 0, n, &to_chars("stereo mix")) || range_contains(
        &l,
        0,
        n,
        &to_chars("mixagem"),
    ) || range_contains(&l, 0, n, &to_chars("wave out")) || range_contains(
        &l,
        0,
        n,
        &to_chars("what you hear"),
    ) {
        String::from_str("loopback")
    } else {
        String::from_str("input")
    }
}

/// The device named on the line `chars[from..to]`, appended to `out`.
fn push_device_on_line(chars: &Vec<char>, from: usize, to: usize, out: &mut Vec<AudioDeviceInfo>)
    requires
        from <= to <= chars@.len(),
    ensures
        final(out)@.map_values(|d: AudioDeviceInfo| device_view(d)) == old(out)@.map_values(
            |d: AudioDeviceInfo| device_view(d),
        ) + device_on_line(chars@.subrange(from as int, to as int)),
{
    let ghost line = chars@.subrange(from as int, to as int);
    let ghost before = out@.map_values(|d: AudioDeviceInfo| device_view(d));
    if range_contains(chars, from, to, &to_chars("(audio)")) && range_contains(
        chars,
        from,
        to,
        &to_chars("[dshow"),
    ) {
        match range_find_char(chars, from, to, '"') {
            Some(a) => {
                proof {
                    let a0 = choose|x: int| first_index(line, '"', x);
                    if a0 != a - from {
                        if a0 < a - from {
                            assert(line[a0] == chars@[from + a0]);
                        } else {
                            assert(line[a - from] == '"');
                        }
                    }
                }
                let ghost rest = line.skip(a - from + 1);
                assert(rest =~= chars@.subrange(a + 1, to as int));
                match range_find_char(chars, a + 1, to, '"') {
                    Some(b) => {
                        proof {
                            let b0 = choose|x: int| first_index(rest, '"', x);
                            if b0 != b - (a + 1) {
                                if b0 < b - (a + 1) {
                                    assert(rest[b0] == chars@[a + 1 + b0]);
                                } else {
                                    assert(rest[b - (a + 1)] == '"');
                                }
                            }
                        }
                        let name = string_from_chars(chars, a + 1, b);
                        assert(name@ =~= rest.take(b - (a + 1)));
                        let device_type = classify_device(&name);
                        let ghost entry = (name@, device_type@);
                        out.push(AudioDeviceInfo { name, device_type });
                        assert(out@.map_values(|d: AudioDeviceInfo| device_view(d)) =~= before + seq![
                            entry,
                        ]);
                    },
                    None => {
                        assert(!exists|b: int| first_index(rest, '"', b)) by {
                            if exists|b: int| first_index(rest, '"', b) {
                                let b = choose|b: int| first_index(rest, '"', b);
                                assert(rest[b] == chars@[a + 1 + b]);
                            }
                        }
                        assert(out@.map_values(|d: AudioDeviceInfo| device_view(d)) =~= before
                            + device_on_line(line));
                    },
                }
            },
            None => {
                assert(!exists|a: int| first_index(line, '"', a)) by {
                    if exists|a: int| first_index(line, '"', a) {
                        let a = choose|a: int| first_index(line, '"', a);
                        assert(line[a] == chars@[from + a]);
                    }
                }
                assert(out@.map_values(|d: AudioDeviceInfo| device_view(d)) =~= before
                    + device_on_line(line));
            },
        }
    } else {
        assert(out@.map_values(|d: AudioDeviceInfo| device_view(d)) =~= before + device_on_line(line));
    }
}

/// The audio devices named in FFmpeg's DirectShow device listing (what
/// `ffmpeg -list_devices true -f dshow -i dummy` prints on its error output),
/// each classified as `loopback` or `input`.
pub fn parse_dshow_audio_devices(listing: &str) -> (r: Vec<AudioDeviceInfo>)
    ensures
        r@.map_values(|d: AudioDeviceInfo| device_view(d)) == devices_in_listing(listing@),
{
    let chars = to_chars(listing);
    let n = chars.len();
    let mut out: Vec<AudioDeviceInfo> = Vec::new();
    let mut pos: usize = 0;
    assert(chars@.skip(0) =~= chars@);
    while pos < n
        invariant
            pos <= n == chars@.len(),
            chars@ == listing@,
            out@.map_values(|d: AudioDeviceInfo| device_view(d)) + devices_in_listing(
                chars@.skip(pos as int),
            ) == devices_in_listing(chars@),
        decreases n - pos,
    {
        let ghost s = chars@.skip(pos as int);
        let ghost before = out@.map_values(|d: AudioDeviceInfo| device_view(d));
        match range_find_char(&chars, pos, n, '\n') {
            Some(k) => {
                assert(s =~= chars@.subrange(pos as int, n as int));
                proof {
                    let k0 = choose|x: int| first_index(s, '\n', x);
                    if k0 != k - pos {
                        if k0 < k - pos {
                            assert(s[k0] == chars@[pos + k0]);
                        } else {
                            assert(s[k - pos] == '\n');
                        }
                    }
                }
                let end = if k > pos && chars[k - 1] == '\r' { k - 1 } else { k };
                assert(without_cr(s.take(k - pos)) =~= chars@.subrange(pos as int, end as int));
                push_device_on_line(&chars, pos, end, &mut out);
                assert(s.skip(k - pos + 1) =~= chars@.skip(k + 1));
                pos = k + 1;
            },
            None => {
                assert(s =~= chars@.subrange(pos as int, n as int));
                assert(!exists|x: int| first_index(s, '\n', x)) by {
                    if exists|x: int| first_index(s, '\n', x) {
                        let x = choose|x: int| first_index(s, '\n', x);
                        assert(s[x] == chars@[pos + x]);
                    }
                }
                push_device_on_line(&chars, pos, n, &mut out);
                assert(chars@.skip(n as int) =~= Seq::<char>::empty());
                pos = n;
            },
        }
    }
    assert(chars@.skip(n as int) =~= Seq::<char>::empty());
    assert(out@.map_values(|d: AudioDeviceInfo| device_view(d)) =~= devices_in_listing(chars@));
    out
}

/// The audio devices found in the listing, or the message
/// `Nenhum dispositivo de áudio encontrado` when it names none.
pub fn audio_devices_from_listing(listing: &str) -> (r: Result<Vec<AudioDeviceInfo>, String>)
    ensures
        match r {
            Ok(v) => v@.len() > 0 && v@.map_values(|d: AudioDeviceInfo| device_view(d))
                == devices_in_listing(listing@),
            Err(m) => devices_in_listing(listing@).len() == 0
                && m@ == "Nenhum dispositivo de áudio encontrado"@,
        },
{
    let devices = parse_dshow_audio_devices(listing);
    if devices.len() == 0 {
        assert(devices@.map_values(|d: AudioDeviceInfo| device_view(d)).len() == 0);
        Err(String::from_str("Nenhum dispositivo de áudio encontrado"))
    } else {
        Ok(devices)
    }
}

} // verus!
