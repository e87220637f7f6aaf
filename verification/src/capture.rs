//! Capture sources, their identifiers, and the frames they deliver.
use vstd::prelude::*;

use crate::text::{
    chars_start_with, dec_digits, has_prefix, int_failure_message, parse_unsigned, push_char,
    push_u64, to_chars, IntParseFailure, parse_usize_chars, copy_string,
};

verus! {

/// Something that can be captured: a monitor or a window.
#[derive(Debug, Clone)]
pub struct CaptureSource {
    pub id: String,
    pub title: String,
    pub source_type: String,
}

/// A captured frame: tightly packed RGBA rows.
#[derive(Debug, Clone)]
pub struct FrameData {
    pub data: Vec<u8>,
    pub width: u32,
    pub height: u32,
}

/// The identifier of monitor `index`: `monitor:` and the index.
pub open spec fn monitor_id(index: nat) -> Seq<char> {
    "monitor:"@ + dec_digits(index)
}

/// The identifier of the window with handle `hwnd`: `window:` and the handle.
pub open spec fn window_id(hwnd: nat) -> Seq<char> {
    "window:"@ + dec_digits(hwnd)
}

/// The view of a capture source as (id, title, type).
pub open spec fn source_view(s: CaptureSource) -> (Seq<char>, Seq<char>, Seq<char>) {
    (s.id@, s.title@, s.source_type@)
}

/// The windows that are listed: those with a non-empty title, in order.
pub open spec fn titled_windows(windows: Seq<(usize, Seq<char>)>) -> Seq<(usize, Seq<char>)>
    decreases windows.len(),
{
    if windows.len() == 0 {
        Seq::empty()
    } else {
        let rest = titled_windows(windows.drop_last());
        if windows.last().1.len() > 0 {
            rest.push(windows.last())
        } else {
            rest
        }
    }
}

/// The sources offered for capture: every monitor, then every window that
/// has a title.
pub open spec fn sources_listing(
    monitors: Seq<usize>,
    windows: Seq<(usize, Seq<char>)>,
) -> Seq<(Seq<char>, Seq<char>, Seq<char>)> {
    monitors.map_values(
        |i: usize| (monitor_id(i as nat), "Monitor "@ + dec_digits(i as nat), "monitor"@),
    ) + titled_windows(windows).map_values(
        |w: (usize, Seq<char>)| (window_id(w.0 as nat), w.1, "window"@),
    )
}

fn prefixed_number(prefix: &str, n: usize) -> (r: String)
    ensures
        r@ == prefix@ + dec_digits(n as nat),
{
    let mut s = String::from_str(prefix);
    push_u64(&mut s, n as u64);
    s
}

/// The capture sources for the given monitor indices and windows (handle,
/// title): each monitor, then each window with a non-empty title.
pub fn capture_sources(monitors: &Vec<usize>, windows: &Vec<(usize, String)>) -> (r: Vec<
    CaptureSource,
>)
    ensures
        r@.map_values(|s: CaptureSource| source_view(s)) == sources_listing(
            monitors@,
            windows@.map_values(|w: (usize, String)| (w.0, w.1@)),
        ),
{
    let ghost wv = windows@.map_values(|w: (usize, String)| (w.0, w.1@));
    let ghost mv = monitors@.map_values(
        |i: usize| (monitor_id(i as nat), "Monitor "@ + dec_digits(i as nat), "monitor"@),
    );
    let mut out: Vec<CaptureSource> = Vec::new();
    let nm = monitors.len();
    for k in 0..nm
        invariant
            nm == monitors@.len(),
            mv == monitors@.map_values(
                |i: usize| (monitor_id(i as nat), "Monitor "@ + dec_digits(i as nat), "monitor"@),
            ),
            out@.map_values(|s: CaptureSource| source_view(s)) == mv.take(k as int),
    {
        let idx = monitors[k];
        let ghost prev = out@;
        out.push(
            CaptureSource {
                id: prefixed_number("monitor:", idx),
                title: prefixed_number("Monitor ", idx),
                source_type: String::from_str("monitor"),
            },
        );
        assert(out@ == prev.push(out@.last()));
        assert(out@.map_values(|s: CaptureSource| source_view(s)) =~= prev.map_values(
            |s: CaptureSource| source_view(s),
        ).push(source_view(out@.last())));
        assert(mv.take(k + 1) =~= mv.take(k as int).push(mv[k as int]));
        assert(out@.map_values(|s: CaptureSource| source_view(s)) =~= mv.take(k + 1));
    }
    assert(mv.take(nm as int) =~= mv);
    let ghost tv = titled_windows(wv).map_values(
        |w: (usize, Seq<char>)| (window_id(w.0 as nat), w.1, "window"@),
    );
    let nw = windows.len();
    for k in 0..nw
        invariant
            nw == windows@.len(),
            wv == windows@.map_values(|w: (usize, String)| (w.0, w.1@)),
            out@.map_values(|s: CaptureSource| source_view(s)) == mv + titled_windows(
                wv.take(k as int),
            ).map_values(|w: (usize, Seq<char>)| (window_id(w.0 as nat), w.1, "window"@)),
    {
        assert(wv.take(k + 1).drop_last() =~= wv.take(k as int));
        assert(wv.take(k + 1).last() == wv[k as int]);
        let (hwnd, title) = (windows[k].0, &windows[k].1);
        let ghost prev = out@;
        let ghost tprev = titled_windows(wv.take(k as int));
        let ghost f = |w: (usize, Seq<char>)| (window_id(w.0 as nat), w.1, "window"@);
        if !title.as_str().is_empty() {
            out.push(
                CaptureSource {
                    id: prefixed_number("window:", hwnd),
                    title: copy_string(title),
                    source_type: String::from_str("window"),
                },
            );
            assert(out@.map_values(|s: CaptureSource| source_view(s)) =~= prev.map_values(
                |s: CaptureSource| source_view(s),
            ).push(source_view(out@.last())));
            assert(tprev.push(wv[k as int]).map_values(f) =~= tprev.map_values(f).push(f(wv[k as int])));
        }
        assert(out@.map_values(|s: CaptureSource| source_view(s)) =~= mv + titled_windows(
            wv.take(k + 1),
        ).map_values(|w: (usize, Seq<char>)| (window_id(w.0 as nat), w.1, "window"@)));
    }
    assert(wv.take(nw as int) =~= wv);
    out
}

/// What a capture identifier designates.
#[derive(Debug, Clone, Copy, PartialEq, Eq, Structural)]
pub enum CaptureTarget {
    /// The monitor with this index.
    Monitor(usize),
    /// The window with this handle.
    Window(usize),
}

/// Why a capture identifier designates nothing.
#[derive(Debug, Clone, Copy, PartialEq, Eq, Structural)]
pub enum CaptureIdError {
    /// The identifier starts with neither `monitor:` nor `window:`.
    UnknownKind,
    /// The number after the prefix cannot be read.
    BadNumber(IntParseFailure),
}

/// What a capture identifier designates: `monitor:` or `window:` followed by
/// an unsigned number (read as `str::parse` reads a `usize`).
pub open spec fn capture_target_of(id: Seq<char>) -> Result<CaptureTarget, CaptureIdError> {
    if has_prefix(id, "monitor:"@) {
        match parse_unsigned(id.skip(8), usize::MAX as nat) {
            Ok(n) => Ok(CaptureTarget::Monitor(n as usize)),
            Err(e) => Err(CaptureIdError::BadNumber(e)),
        }
    } else if has_prefix(id, "window:"@) {
        match parse_unsigned(id.skip(7), usize::MAX as nat) {
            Ok(n) => Ok(CaptureTarget::Window(n as usize)),
            Err(e) => Err(CaptureIdError::BadNumber(e)),
        }
    } else {
        Err(CaptureIdError::UnknownKind)
    }
}

/// Reads a capture identifier such as `monitor:1` or `window:65802`.
pub fn parse_capture_id(id: &str) -> (r: Result<CaptureTarget, CaptureIdError>)
    ensures
        r == capture_target_of(id@),
{
    let chars = to_chars(id);
    proof {
        reveal_strlit("monitor:");
        reveal_strlit("window:");
    }
    if chars_start_with(&chars, "monitor:") {
        match parse_usize_chars(&chars, 8) {
            Ok(n) => Ok(CaptureTarget::Monitor(n)),
            Err(e) => Err(CaptureIdError::BadNumber(e)),
        }
    } else if chars_start_with(&chars, "window:") {
        match parse_usize_chars(&chars, 7) {
            Ok(n) => Ok(CaptureTarget::Window(n)),
            Err(e) => Err(CaptureIdError::BadNumber(e)),
        }
    } else {
        Err(CaptureIdError::UnknownKind)
    }
}

/// The message of a capture identifier error; `unknown` is the message used
/// for an identifier of unknown kind.
pub open spec fn capture_id_error_message(e: CaptureIdError, unknown: Seq<char>) -> Seq<char> {
    match e {
        CaptureIdError::UnknownKind => unknown,
        CaptureIdError::BadNumber(f) => int_failure_message(f),
    }
}

impl CaptureIdError {
    /// The message of the error, with `unknown` for an identifier of unknown kind.
    pub fn message(&self, unknown: &str) -> (r: String)
        ensures
            r@ == capture_id_error_message(*self, unknown@),
    {
        match self {
            CaptureIdError::UnknownKind => String::from_str(unknown),
            CaptureIdError::BadNumber(f) => f.message(),
        }
    }
}

/// Every source offered for capture is designated by its own identifier: a
/// monitor's id reads back as that monitor, a window's id as that window.
pub proof fn law_source_ids_read_back(index: usize)
    ensures
        capture_target_of(monitor_id(index as nat)) == Ok::<CaptureTarget, CaptureIdError>(
            CaptureTarget::Monitor(index),
        ),
        capture_target_of(window_id(index as nat)) == Ok::<CaptureTarget, CaptureIdError>(
            CaptureTarget::Window(index),
        ),
{
    reveal_strlit("monitor:");
    reveal_strlit("window:");
    crate::text::law_read_digits_of_rendering(index as nat, usize::MAX as nat);
    let m = monitor_id(index as nat);
    let w = window_id(index as nat);
    assert(m.subrange(0, 8) =~= "monitor:"@);
    assert(m.skip(8) =~= dec_digits(index as nat));
    assert(w.subrange(0, 7) =~= "window:"@);
    assert(w.skip(7) =~= dec_digits(index as nat));
    assert(w.subrange(0, 8) != "monitor:"@) by {
        assert(w.subrange(0, 8)[0] == 'w');
    }
}


/// The rows `0..count` of a frame whose rows start every `stride` bytes,
/// each cut to its first `row` bytes and laid end to end.
pub open spec fn frame_rows(data: Seq<u8>, row: nat, stride: nat, count: nat) -> Seq<u8>
    decreases count,
{
    if count == 0 {
        Seq::empty()
    } else {
        frame_rows(data, row, stride, (count - 1) as nat) + data.subrange(
            (count - 1) * stride,
            (count - 1) * stride + row,
        )
    }
}

/// The pixels of a captured RGBA frame without the padding at the end of its
/// rows: `None` when the buffer is smaller than `width * height` pixels;
/// otherwise the row pitch is the buffer size divided by the height, and
/// each row keeps its first `width * 4` bytes.
pub open spec fn packed_frame(data: Seq<u8>, width: u32, height: u32) -> Option<Seq<u8>> {
    let row = width as nat * 4;
    if data.len() < row * height as nat {
        None
    } else {
        Some(frame_rows(data, row, data.len() / height as nat, height as nat))
    }
}

/// Copies the pixel rows of a captured frame, dropping the padding that the
/// capture API may add at the end of each row. A buffer too small for the
/// frame's size is rejected (the frame is skipped).
pub fn pack_frame_rows(data: &Vec<u8>, width: u32, height: u32) -> (r: Option<Vec<u8>>)
    requires
        height > 0,
        width as nat * 4 * height as nat <= usize::MAX,
    ensures
        r.deep_view() == packed_frame(data@, width, height),
{
    assert(width as nat * 4 <= width as nat * 4 * height as nat) by (nonlinear_arith)
        requires height > 0;
    let row_size = width as usize * 4;
    let h = height as usize;
    assert(row_size * h <= usize::MAX) by (nonlinear_arith)
        requires row_size == width as nat * 4, h == height as nat, width as nat * 4 * height as nat <= usize::MAX;
    let expected_total_len = row_size * h;
    if data.len() < expected_total_len {
        return None;
    }
    let len = data.len();
    let stride = len / h;
    assert(stride * h <= len) by (nonlinear_arith)
        requires stride == len / h, h > 0;
    assert(row_size <= stride) by (nonlinear_arith)
        requires stride == len / h, h > 0, row_size * h <= len;
    let mut buffer: Vec<u8> = Vec::new();
    let mut y: usize = 0;
    while y < h
        invariant
            y <= h,
            h == height as nat,
            h > 0,
            len == data@.len(),
            row_size == width as nat * 4,
            stride == len / h,
            stride * h <= len,
            row_size <= stride,
            buffer@ == frame_rows(data@, row_size as nat, stride as nat, y as nat),
        decreases h - y,
    {
        assert(y * stride + stride <= len) by (nonlinear_arith)
            requires y < h, stride * h <= len;
        let start = y * stride;
        let end = start + row_size;
        let mut x = start;
        while x < end
            invariant
                start <= x <= end <= len,
                len == data@.len(),
                buffer@ == frame_rows(data@, row_size as nat, stride as nat, y as nat)
                    + data@.subrange(start as int, x as int),
            decreases end - x,
        {
            buffer.push(data[x]);
            assert(data@.subrange(start as int, x + 1) =~= data@.subrange(start as int, x as int).push(data@[x as int]));
            x = x + 1;
        }
        assert(buffer@ =~= frame_rows(data@, row_size as nat, stride as nat, (y + 1) as nat));
        y = y + 1;
    }
    Some(buffer)
}

/// A tightly packed frame (rows of exactly `width * 4` bytes, nothing more)
/// passes through unchanged.
pub proof fn law_packed_frame_is_identity_without_padding(data: Seq<u8>, width: u32, height: u32)
    requires
        height > 0,
        data.len() == width as nat * 4 * height as nat,
    ensures
        packed_frame(data, width, height) == Some(data),
{
    let row = width as nat * 4;
    let h = height as nat;
    assert(data.len() / h == row) by (nonlinear_arith)
        requires data.len() == row * h, h > 0;
    lemma_contiguous_rows(data, row, h);
    assert(data.subrange(0, (row * h) as int) =~= data);
}

proof fn lemma_contiguous_rows(data: Seq<u8>, row: nat, count: nat)
    requires
        row * count <= data.len(),
    ensures
        frame_rows(data, row, row, count) == data.subrange(0, (row * count) as int),
    decreases count,
{
    if count > 0 {
        let c1 = (count - 1) as nat;
        assert(row * c1 + row == row * count) by (nonlinear_arith)
            requires c1 == count - 1;
        assert(c1 * row == row * c1) by (nonlinear_arith);
        lemma_contiguous_rows(data, row, c1);
        assert(row * c1 <= row * count) by (nonlinear_arith)
            requires c1 <= count;
        assert(frame_rows(data, row, row, count) == frame_rows(data, row, row, c1) + data.subrange(
            (c1 * row) as int,
            (c1 * row + row) as int,
        ));
        assert(data.subrange(0, (row * c1) as int) + data.subrange((row * c1) as int, (row * count) as int)
            =~= data.subrange(0, (row * count) as int));
    } else {
        assert(row * count == 0) by (nonlinear_arith)
            requires count == 0;
        assert(data.subrange(0, 0) =~= Seq::<u8>::empty());
    }
}

/// The result of scaling an RGBA image of `width` x `height` pixels held in
/// `data` to `new_width` x `new_height` with nearest-neighbour sampling.
pub uninterp spec fn resized_rgba_nearest(
    data: Seq<u8>,
    width: u32,
    height: u32,
    new_width: u32,
    new_height: u32,
) -> Seq<u8>;

/// Scales an RGBA image with the image crate: `ImageBuffer::from_raw` over
/// the bytes, then `imageops::resize` with `FilterType::Nearest`, then the
/// raw bytes of the result. The contract claims that `from_raw` fails
/// exactly when the bytes are fewer than `width * height * 4` (as its
/// checked length test does), that the result holds `new_width *
/// new_height` pixels, and that its bytes are a function of the arguments.
#[verifier::external_body]
fn resize_rgba_nearest(data: Vec<u8>, width: u32, height: u32, new_width: u32, new_height: u32) -> (r:
    Option<Vec<u8>>)
    requires
        width as nat * new_height as nat * 16 <= usize::MAX,
        new_width as nat * new_height as nat * 16 <= usize::MAX,
    ensures
        r is Some <==> width as nat * height as nat * 4 <= data@.len(),
        r matches Some(v) ==> v@ == resized_rgba_nearest(data@, width, height, new_width, new_height)
            && v@.len() == new_width as nat * new_height as nat * 4,
{
    let img = image::ImageBuffer::<image::Rgba<u8>, Vec<u8>>::from_raw(width, height, data)?;
    Some(image::imageops::resize(&img, new_width, new_height, image::imageops::FilterType::Nearest).into_raw())
}

/// The frame as it is encoded on a canvas of `canvas_width` x
/// `canvas_height`: unchanged when it already has that size, otherwise scaled
/// to it (nearest neighbour); `None` when its bytes are too few for its size.
pub open spec fn frame_on_canvas(
    f: FrameData,
    canvas_width: u32,
    canvas_height: u32,
) -> Option<(Seq<u8>, u32, u32)> {
    if f.width == canvas_width && f.height == canvas_height {
        Some((f.data@, f.width, f.height))
    } else if f.width as nat * f.height as nat * 4 <= f.data@.len() {
        Some(
            (
                resized_rgba_nearest(f.data@, f.width, f.height, canvas_width, canvas_height),
                canvas_width,
                canvas_height,
            ),
        )
    } else {
        None
    }
}

/// The view of a frame as (pixels, width, height).
pub open spec fn frame_view(f: FrameData) -> (Seq<u8>, u32, u32) {
    (f.data@, f.width, f.height)
}

/// Brings a captured frame to the canvas size, scaling it when its size
/// differs. `None` means the frame could not be read and is dropped.
pub fn fit_frame_to_canvas(frame: FrameData, canvas_width: u32, canvas_height: u32) -> (r: Option<
    FrameData,
>)
    requires
        frame.width as nat * canvas_height as nat * 16 <= usize::MAX,
        canvas_width as nat * canvas_height as nat * 16 <= usize::MAX,
    ensures
        match r {
            Some(f) => frame_on_canvas(frame, canvas_width, canvas_height) == Some(frame_view(f)),
            None => frame_on_canvas(frame, canvas_width, canvas_height) is None,
        },
{
    let FrameData { data, width, height } = frame;
    if width != canvas_width || height != canvas_height {
        match resize_rgba_nearest(data, width, height, canvas_width, canvas_height) {
            Some(scaled) => Some(FrameData { data: scaled, width: canvas_width, height: canvas_height }),
            None => None,
        }
    } else {
        Some(FrameData { data, width, height })
    }
}

/// A stream identifier made safe for file names: every `:` becomes `_`.
pub open spec fn sanitized(id: Seq<char>) -> Seq<char> {
    id.map_values(|c: char| if c == ':' { '_' } else { c })
}

/// The identifier with every `:` replaced by `_`, as used for the stream's
/// folder and files.
pub fn sanitize_stream_id(id: &str) -> (r: String)
    ensures
        r@ == sanitized(id@),
{
    let chars = to_chars(id);
    let mut s = String::new();
    let n = chars.len();
    for i in 0..n
        invariant
            n == chars@.len(),
            chars@ == id@,
            s@ == sanitized(chars@.take(i as int)),
    {
        let c = chars[i];
        push_char(&mut s, if c == ':' { '_' } else { c });
        assert(sanitized(chars@.take(i + 1)) =~= sanitized(chars@.take(i as int)).push(
            if c == ':' { '_' } else { c },
        ));
    }
    assert(chars@.take(n as int) =~= chars@);
    s
}

/// The HTTP path of a stream's playlist: `/streams/<id>/<id>.m3u8` with the
/// sanitized identifier.
pub open spec fn stream_hls_path(id: Seq<char>) -> Seq<char> {
    "/streams/"@ + sanitized(id) + "/"@ + sanitized(id) + ".m3u8"@
}

/// The HTTP path under which a stream's playlist is served.
pub fn hls_path_for(id: &str) -> (r: String)
    ensures
        r@ == stream_hls_path(id@),
{
    let safe = sanitize_stream_id(id);
    let mut s = String::from_str("/streams/");
    s.append(safe.as_str());
    s.append("/");
    s.append(safe.as_str());
    s.append(".m3u8");
    s
}

/// Sanitizing is idempotent and leaves no `:`.
pub proof fn law_sanitize_idempotent(id: Seq<char>)
    ensures
        sanitized(sanitized(id)) == sanitized(id),
        !sanitized(id).contains(':'),
{
    assert(sanitized(sanitized(id)) =~= sanitized(id));
    if sanitized(id).contains(':') {
        let k = choose|k: int| 0 <= k < sanitized(id).len() && sanitized(id)[k] == ':';
        assert(sanitized(id)[k] != ':');
    }
}


/// The capture identifier of the window with handle `hwnd`.
pub fn window_capture_id(hwnd: usize) -> (r: String)
    ensures
        r@ == window_id(hwnd as nat),
{
    prefixed_number("window:", hwnd)
}

/// The hyphenated form of a UUID: 36 characters with hyphens at positions
/// 8, 13, 18 and 23.
pub open spec fn uuid_shaped(u: Seq<char>) -> bool {
    u.len() == 36 && u[8] == '-' && u[13] == '-' && u[18] == '-' && u[23] == '-'
}

/// A fresh random (version 4) UUID in its hyphenated lower-case form, from
/// `uuid::Uuid::new_v4` and its `Display`. The contract claims the form's
/// length and the places of its four hyphens; the digits are random.
#[verifier::external_body]
fn random_uuid() -> (r: String)
    ensures
        uuid_shaped(r@),
{
    uuid::Uuid::new_v4().to_string()
}

/// The identifier of a browser stream named after the UUID `uuid`:
/// `browser_` followed by it.
pub fn browser_id_for_uuid(uuid: &str) -> (r: String)
    ensures
        r@ == "browser_"@ + uuid@,
{
    let mut s = String::from_str("browser_");
    s.append(uuid);
    s
}

/// The label of the off-screen window of a browser stream named after the
/// UUID `uuid`: `source_` followed by it.
pub fn window_label_for_uuid(uuid: &str) -> (r: String)
    ensures
        r@ == "source_"@ + uuid@,
{
    let mut s = String::from_str("source_");
    s.append(uuid);
    s
}

/// The identifier of a browser stream: the one the user chose, or
/// `browser_` followed by a fresh random UUID.
pub fn browser_stream_id(custom_id: Option<String>) -> (r: String)
    ensures
        match custom_id {
            Some(c) => r@ == c@,
            None => exists|u: Seq<char>| uuid_shaped(u) && r@ == "browser_"@ + u,
        },
{
    match custom_id {
        Some(c) => c,
        None => {
            let u = random_uuid();
            browser_id_for_uuid(u.as_str())
        },
    }
}

/// A fresh label for the off-screen window of a browser stream:
/// `source_` followed by a random UUID.
pub fn browser_window_label() -> (r: String)
    ensures
        exists|u: Seq<char>| uuid_shaped(u) && r@ == "source_"@ + u,
{
    let u = random_uuid();
    window_label_for_uuid(u.as_str())
}

} // verus!
