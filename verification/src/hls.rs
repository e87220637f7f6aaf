//! MPEG transport stream packets for HLS segments: PSI tables with their
//! CRC, PES packetization, and the sliding window of published segments.
use vstd::prelude::*;

use crate::text::{dec_digits, push_u64, copy_string};

verus! {

/// One bit step of the MPEG-2 CRC-32 (polynomial 0x04C11DB7, MSB first).
pub open spec fn crc_shift(crc: u32) -> u32 {
    if crc & 0x8000_0000u32 != 0 {
        (crc << 1u32) ^ 0x04C1_1DB7u32
    } else {
        crc << 1u32
    }
}

/// `n` bit steps.
pub open spec fn crc_shifts(crc: u32, n: nat) -> u32
    decreases n,
{
    if n == 0 {
        crc
    } else {
        crc_shift(crc_shifts(crc, (n - 1) as nat))
    }
}

/// The CRC after one more byte: the byte enters the top bits, then eight steps.
pub open spec fn crc_byte(crc: u32, b: u8) -> u32 {
    crc_shifts(crc ^ ((b as u32) << 24u32), 8)
}

/// The MPEG-2 CRC-32 of `data`: initial value all ones, no final inversion.
pub open spec fn crc32_mpeg2(data: Seq<u8>) -> u32
    decreases data.len(),
{
    if data.len() == 0 {
        0xFFFF_FFFFu32
    } else {
        crc_byte(crc32_mpeg2(data.drop_last()), data.last())
    }
}

/// The MPEG-2 CRC-32 of `data`, as PSI sections carry it.
pub fn crc32_mpeg2_of(data: &[u8]) -> (r: u32)
    ensures
        r == crc32_mpeg2(data@),
{
    let mut crc: u32 = 0xFFFF_FFFF;
    let n = data.len();
    for i in 0..n
        invariant
            n == data@.len(),
            crc == crc32_mpeg2(data@.take(i as int)),
    {
        assert(data@.take(i + 1).drop_last() =~= data@.take(i as int));
        let b = data[i];
        crc = crc ^ ((b as u32) << 24u32);
        let ghost start = crc;
        for k in 0..8
            invariant
                crc == crc_shifts(start, k as nat),
        {
            if crc & 0x8000_0000u32 != 0 {
                crc = (crc << 1u32) ^ 0x04C1_1DB7u32;
            } else {
                crc = crc << 1u32;
            }
        }
    }
    assert(data@.take(n as int) =~= data@);
    crc
}


/// A 32-bit value as four big-endian bytes.
pub open spec fn be32(x: u32) -> Seq<u8> {
    seq![(x >> 24u32) as u8, (x >> 16u32) as u8, (x >> 8u32) as u8, x as u8]
}

/// A transport packet carrying one PSI section: the packet header (with
/// payload start set) for the PID whose high byte is `pid_byte`, the
/// section, its CRC (over the section without its pointer field), and
/// 0xFF filling up to 188 bytes.
pub open spec fn psi_packet(pid_byte: u8, section: Seq<u8>, cc: u8) -> Seq<u8> {
    seq![0x47u8, pid_byte, 0x00u8, 0x10u8 | (cc & 0x0Fu8)] + section + be32(
        crc32_mpeg2(section.skip(1)),
    ) + Seq::new((188 - 8 - section.len()) as nat, |i: int| 0xFFu8)
}

/// The program association section: program 1 with its PMT on PID 0x1000.
pub open spec fn pat_section() -> Seq<u8> {
    seq![0x00u8, 0x00, 0xB0, 0x0D, 0x00, 0x01, 0xC1, 0x00, 0x00, 0x00, 0x01, 0xE1, 0x00]
}

/// The program map section: H.264 video on PID 0x100 (the PCR PID) and AAC
/// audio on PID 0x101.
pub open spec fn pmt_section() -> Seq<u8> {
    seq![
        0x00u8, 0x02, 0xB0, 0x17, 0x00, 0x01, 0xC1, 0x00, 0x00, 0xE1, 0x00, 0xF0, 0x00, 0x1B,
        0xE1, 0x00, 0xF0, 0x00, 0x0F, 0xE1, 0x01, 0xF0, 0x00,
    ]
}

fn build_psi_packet(pid_byte: u8, section: &Vec<u8>, cc: u8) -> (r: Vec<u8>)
    requires
        1 <= section@.len() <= 180,
    ensures
        r@ == psi_packet(pid_byte, section@, cc),
        r@.len() == 188,
{
    let mut ts: Vec<u8> = Vec::new();
    ts.push(0x47);
    ts.push(pid_byte);
    ts.push(0x00);
    ts.push(0x10 | (cc & 0x0F));
    let n = section.len();
    for i in 0..n
        invariant
            n == section@.len(),
            ts@ == seq![0x47u8, pid_byte, 0x00u8, 0x10u8 | (cc & 0x0Fu8)] + section@.take(i as int),
    {
        ts.push(section[i]);
        assert(section@.take(i + 1) =~= section@.take(i as int).push(section@[i as int]));
    }
    assert(section@.take(n as int) =~= section@);
    let crc = crc32_mpeg2_of(&section.as_slice()[1..n]);
    assert(section@.subrange(1, n as int) =~= section@.skip(1));
    ts.push((crc >> 24u32) as u8);
    ts.push((crc >> 16u32) as u8);
    ts.push((crc >> 8u32) as u8);
    ts.push(crc as u8);
    let ghost head = ts@;
    assert(head =~= seq![0x47u8, pid_byte, 0x00u8, 0x10u8 | (cc & 0x0Fu8)] + section@ + be32(crc));
    let fill = 188 - 8 - n;
    for j in 0..fill
        invariant
            fill == 188 - 8 - n,
            ts@ == head + Seq::new(j as nat, |i: int| 0xFFu8),
    {
        ts.push(0xFF);
        assert(ts@ =~= head + Seq::new((j + 1) as nat, |i: int| 0xFFu8));
    }
    ts
}

fn section_bytes(pat: bool) -> (r: Vec<u8>)
    ensures
        r@ == (if pat { pat_section() } else { pmt_section() }),
{
    let v: Vec<u8> = if pat {
        vec![0x00u8, 0x00, 0xB0, 0x0D, 0x00, 0x01, 0xC1, 0x00, 0x00, 0x00, 0x01, 0xE1, 0x00]
    } else {
        vec![
            0x00u8, 0x02, 0xB0, 0x17, 0x00, 0x01, 0xC1, 0x00, 0x00, 0xE1, 0x00, 0xF0, 0x00, 0x1B,
            0xE1, 0x00, 0xF0, 0x00, 0x0F, 0xE1, 0x01, 0xF0, 0x00,
        ]
    };
    assert(v@ =~= (if pat { pat_section() } else { pmt_section() }));
    v
}

/// The PAT packet written at the start of each segment.
pub fn pat_packet(cc: u8) -> (r: Vec<u8>)
    ensures
        r@ == psi_packet(0x40u8, pat_section(), cc),
        r@.len() == 188,
{
    build_psi_packet(0x40, &section_bytes(true), cc)
}

/// The PMT packet written at the start of each segment.
pub fn pmt_packet(cc: u8) -> (r: Vec<u8>)
    ensures
        r@ == psi_packet(0x50u8, pmt_section(), cc),
        r@.len() == 188,
{
    build_psi_packet(0x50, &section_bytes(false), cc)
}


/// The 14-byte PES header of an elementary stream packet: start code, stream
/// id (0xE0 video, 0xC0 audio), the packet length (payload plus 8, kept to
/// 16 bits), and the presentation time stamp.
pub open spec fn pes_header(payload_len: nat, pts: u64, is_video: bool) -> Seq<u8> {
    let len = (payload_len + 8) as u16;
    seq![
        0x00u8, 0x00u8, 0x01u8, if is_video { 0xE0u8 } else { 0xC0u8 }, (len >> 8u16) as u8,
        len as u8, 0x80u8, 0x80u8, 5u8, 0x21u8 | (((pts >> 29u64) & 0x0Eu64) as u8),
        ((pts >> 22u64) & 0xFFu64) as u8, 0x01u8 | (((pts >> 14u64) & 0xFEu64) as u8),
        ((pts >> 7u64) & 0xFFu64) as u8, 0x01u8 | (((pts << 1u64) & 0xFEu64) as u8),
    ]
}

/// The PID of the stream: 0x100 for video, 0x101 for audio.
pub open spec fn stream_pid(is_video: bool) -> u16 {
    if is_video {
        256
    } else {
        257
    }
}

/// The adaptation field that carries the PCR (taken equal to the PTS) in the
/// first packet of a video key frame; its length byte counts `stuffing`
/// extra 0xFF bytes that follow it.
pub open spec fn pcr_field(pts: u64, stuffing: nat) -> Seq<u8> {
    seq![
        (7 + stuffing) as u8, 0x50u8, (pts >> 25u64) as u8, (pts >> 17u64) as u8,
        (pts >> 9u64) as u8, (pts >> 1u64) as u8, (((pts & 1u64) << 7u64) as u8) | 0x7Eu8,
        0x00u8,
    ]
}

/// The adaptation field that only pads a packet by `stuffing` bytes.
pub open spec fn stuffing_field(stuffing: nat) -> Seq<u8> {
    if stuffing == 1 {
        seq![0x00u8]
    } else {
        seq![(stuffing - 1) as u8, 0x00u8] + Seq::new((stuffing - 2) as nat, |i: int| 0xFFu8)
    }
}

/// How many PES bytes the packet at `offset` carries.
pub open spec fn ts_payload_size(total: nat, offset: nat, pcr: bool) -> nat {
    let room: nat = if pcr { 176 } else { 184 };
    if total - offset < room {
        (total - offset) as nat
    } else {
        room
    }
}

/// The transport packet that carries `pes[offset..]`: header (payload start
/// set on the first packet, adaptation flag when there is an adaptation
/// field), then the PCR field on the first packet of a video key frame, then
/// padding when the rest of the PES packet does not fill the packet, then
/// the payload.
pub open spec fn ts_packet(
    pes: Seq<u8>,
    offset: nat,
    pts: u64,
    is_video: bool,
    is_keyframe: bool,
    cc: u8,
) -> Seq<u8> {
    let first = offset == 0;
    let pcr = first && is_keyframe && is_video;
    let room: nat = if pcr { 176 } else { 184 };
    let size = ts_payload_size(pes.len(), offset, pcr);
    ts_header(first, pcr, is_video, cc) + adaptation_bytes(pcr, (room - size) as nat, pts)
        + pes.subrange(offset as int, (offset + size) as int)
}

/// The four header bytes of a transport packet of the stream: sync byte,
/// payload start flag on the first packet of a PES packet, the PID, and the
/// adaptation flag (set when the packet carries the PCR) with the
/// continuity counter.
pub open spec fn ts_header(first: bool, pcr: bool, is_video: bool, cc: u8) -> Seq<u8> {
    let pid = stream_pid(is_video);
    seq![
        0x47u8,
        (((pid >> 8u16) & 0x1Fu16) as u8) | (if first { 0x40u8 } else { 0x00u8 }),
        (pid & 0xFFu16) as u8,
        (if pcr { 0x30u8 } else { 0x10u8 }) | (cc & 0x0Fu8),
    ]
}

/// The bytes between the packet header and the payload.
pub open spec fn adaptation_bytes(pcr: bool, stuffing: nat, pts: u64) -> Seq<u8> {
    if pcr {
        pcr_field(pts, stuffing) + Seq::new(stuffing, |i: int| 0xFFu8)
    } else if stuffing > 0 {
        stuffing_field(stuffing)
    } else {
        Seq::empty()
    }
}

/// The continuity counter that follows `cc`: one more, modulo 16.
pub open spec fn next_cc(cc: u8) -> u8 {
    (((cc & 0x0Fu8) + 1) as u8) & 0x0Fu8
}

fn advance_cc(cc: u8) -> (r: u8)
    ensures
        r == next_cc(cc),
{
    assert(cc & 0x0Fu8 <= 15) by (bit_vector);
    ((cc & 0x0F) + 1) & 0x0F
}

/// The transport packets that carry `pes[offset..]`, and the continuity
/// counter after them.
pub open spec fn ts_packets(
    pes: Seq<u8>,
    offset: nat,
    pts: u64,
    is_video: bool,
    is_keyframe: bool,
    cc: u8,
) -> (Seq<u8>, u8)
    decreases pes.len() - offset,
{
    if offset >= pes.len() {
        (Seq::empty(), cc)
    } else {
        let pcr = offset == 0 && is_keyframe && is_video;
        let next = offset + ts_payload_size(pes.len(), offset, pcr);
        let rest = ts_packets(pes, next, pts, is_video, is_keyframe, next_cc(cc));
        (ts_packet(pes, offset, pts, is_video, is_keyframe, cc) + rest.0, rest.1)
    }
}

/// The transport stream bytes of one access unit: the PES packet of `data`
/// at time `pts`, cut into 188-byte packets, with the stream's continuity
/// counter `cc` and the counter that follows them.
pub open spec fn pes_transport(data: Seq<u8>, pts: u64, is_video: bool, is_keyframe: bool, cc: u8) -> (
    Seq<u8>,
    u8,
) {
    ts_packets(pes_header(data.len(), pts, is_video) + data, 0, pts, is_video, is_keyframe, cc)
}

fn push_fill(v: &mut Vec<u8>, n: usize)
    ensures
        final(v)@ == old(v)@ + Seq::new(n as nat, |i: int| 0xFFu8),
{
    for j in 0..n
        invariant
            v@ == old(v)@ + Seq::new(j as nat, |i: int| 0xFFu8),
    {
        v.push(0xFF);
        assert(v@ =~= old(v)@ + Seq::new((j + 1) as nat, |i: int| 0xFFu8));
    }
}

fn push_range(v: &mut Vec<u8>, src: &Vec<u8>, from: usize, to: usize)
    requires
        from <= to <= src@.len(),
    ensures
        final(v)@ == old(v)@ + src@.subrange(from as int, to as int),
{
    let mut i = from;
    while i < to
        invariant
            from <= i <= to <= src@.len(),
            v@ == old(v)@ + src@.subrange(from as int, i as int),
        decreases to - i,
    {
        v.push(src[i]);
        assert(src@.subrange(from as int, i + 1) =~= src@.subrange(from as int, i as int).push(src@[i as int]));
        i = i + 1;
    }
}

fn build_pes(data: &[u8], pts: u64, is_video: bool) -> (r: Vec<u8>)
    requires
        data@.len() + 14 <= usize::MAX,
    ensures
        r@ == pes_header(data@.len(), pts, is_video) + data@,
{
    let len = (data.len() + 8) as u16;
    let mut v: Vec<u8> = Vec::new();
    v.push(0x00);
    v.push(0x00);
    v.push(0x01);
    v.push(if is_video { 0xE0u8 } else { 0xC0u8 });
    v.push((len >> 8u16) as u8);
    v.push(len as u8);
    v.push(0x80);
    v.push(0x80);
    v.push(5);
    v.push(0x21u8 | (((pts >> 29u64) & 0x0Eu64) as u8));
    v.push(((pts >> 22u64) & 0xFFu64) as u8);
    v.push(0x01u8 | (((pts >> 14u64) & 0xFEu64) as u8));
    v.push(((pts >> 7u64) & 0xFFu64) as u8);
    v.push(0x01u8 | (((pts << 1u64) & 0xFEu64) as u8));
    let n = data.len();
    for i in 0..n
        invariant
            n == data@.len(),
            v@ == pes_header(data@.len(), pts, is_video) + data@.take(i as int),
    {
        v.push(data[i]);
        assert(data@.take(i + 1) =~= data@.take(i as int).push(data@[i as int]));
    }
    assert(data@.take(n as int) =~= data@);
    v
}

fn push_adaptation(out: &mut Vec<u8>, pcr: bool, stuffing: usize, pts: u64)
    requires
        stuffing <= 184,
    ensures
        final(out)@ == old(out)@ + adaptation_bytes(pcr, stuffing as nat, pts),
{
    if pcr {
        out.push((7 + stuffing) as u8);
        out.push(0x50);
        out.push((pts >> 25u64) as u8);
        out.push((pts >> 17u64) as u8);
        out.push((pts >> 9u64) as u8);
        out.push((pts >> 1u64) as u8);
        out.push((((pts & 1u64) << 7u64) as u8) | 0x7Eu8);
        out.push(0x00);
        assert(out@ =~= old(out)@ + pcr_field(pts, stuffing as nat));
        push_fill(out, stuffing);
        assert(out@ =~= old(out)@ + adaptation_bytes(pcr, stuffing as nat, pts));
    } else if stuffing > 0 {
        if stuffing == 1 {
            out.push(0x00);
        } else {
            out.push((stuffing - 1) as u8);
            out.push(0x00);
            push_fill(out, stuffing - 2);
        }
        assert(out@ =~= old(out)@ + adaptation_bytes(pcr, stuffing as nat, pts));
    } else {
        assert(out@ =~= old(out)@ + adaptation_bytes(pcr, stuffing as nat, pts));
    }
}

fn push_ts_header(out: &mut Vec<u8>, first: bool, pcr: bool, is_video: bool, cc: u8)
    ensures
        final(out)@ == old(out)@ + ts_header(first, pcr, is_video, cc),
{
    let pid: u16 = if is_video { 256 } else { 257 };
    out.push(0x47);
    out.push((((pid >> 8u16) & 0x1Fu16) as u8) | (if first { 0x40u8 } else { 0x00u8 }));
    out.push((pid & 0xFFu16) as u8);
    out.push((if pcr { 0x30u8 } else { 0x10u8 }) | (cc & 0x0Fu8));
    assert(final(out)@ =~= old(out)@ + ts_header(first, pcr, is_video, cc));
}

fn push_ts_packet(
    out: &mut Vec<u8>,
    pes: &Vec<u8>,
    offset: usize,
    pts: u64,
    is_video: bool,
    is_keyframe: bool,
    cc: u8,
) -> (size: usize)
    requires
        offset < pes@.len(),
    ensures
        final(out)@ == old(out)@ + ts_packet(pes@, offset as nat, pts, is_video, is_keyframe, cc),
        size == ts_payload_size(pes@.len(), offset as nat, offset == 0 && is_keyframe && is_video),
        size > 0,
{
    let first = offset == 0;
    let pcr = first && is_keyframe && is_video;
    let room: usize = if pcr { 176 } else { 184 };
    let remaining = pes.len() - offset;
    let size = if remaining < room { remaining } else { room };
    let stuffing = room - size;
    push_ts_header(out, first, pcr, is_video, cc);
    let ghost header = ts_header(first, pcr, is_video, cc);
    push_adaptation(out, pcr, stuffing, pts);
    let ghost before_payload = out@;
    push_range(out, pes, offset, offset + size);
    let ghost payload = pes@.subrange(offset as int, (offset + size) as int);
    assert(out@ =~= old(out)@ + header + adaptation_bytes(pcr, stuffing as nat, pts) + payload);
    assert(out@ =~= old(out)@ + ts_packet(pes@, offset as nat, pts, is_video, is_keyframe, cc));
    size
}

/// Cuts the PES packet of `data` (time stamp `pts`) into transport packets
/// for the video or audio PID, starting from continuity counter `cc`;
/// returns the bytes to write and the next continuity counter.
pub fn pes_ts_packets(data: &[u8], pts: u64, is_video: bool, is_keyframe: bool, cc: u8) -> (r: (
    Vec<u8>,
    u8,
))
    requires
        data@.len() + 14 <= usize::MAX,
    ensures
        (r.0@, r.1) == pes_transport(data@, pts, is_video, is_keyframe, cc),
{
    let pes = build_pes(data, pts, is_video);
    let ghost total = ts_packets(pes@, 0, pts, is_video, is_keyframe, cc);
    let mut out: Vec<u8> = Vec::new();
    let mut offset: usize = 0;
    let mut c = cc;
    while offset < pes.len()
        invariant
            offset <= pes@.len(),
            total == ts_packets(pes@, 0, pts, is_video, is_keyframe, cc),
            out@ + ts_packets(pes@, offset as nat, pts, is_video, is_keyframe, c).0 == total.0,
            ts_packets(pes@, offset as nat, pts, is_video, is_keyframe, c).1 == total.1,
        decreases pes@.len() - offset,
    {
        let ghost before = out@;
        let size = push_ts_packet(&mut out, &pes, offset, pts, is_video, is_keyframe, c);
        let ghost rest = ts_packets(pes@, (offset + size) as nat, pts, is_video, is_keyframe, next_cc(c));
        assert(ts_packets(pes@, offset as nat, pts, is_video, is_keyframe, c).0
            == ts_packet(pes@, offset as nat, pts, is_video, is_keyframe, c) + rest.0);
        assert(out@ + rest.0 =~= before + ts_packets(pes@, offset as nat, pts, is_video, is_keyframe, c).0);
        offset = offset + size;
        c = advance_cc(c);
    }
    assert(out@ =~= total.0);
    (out, c)
}


proof fn lemma_ts_packet_len(pes: Seq<u8>, offset: nat, pts: u64, is_video: bool, is_keyframe: bool, cc: u8)
    requires
        offset < pes.len(),
    ensures
        ts_packet(pes, offset, pts, is_video, is_keyframe, cc).len() == 188,
        ts_packet(pes, offset, pts, is_video, is_keyframe, cc)[0] == 0x47u8,
{
    let pcr = offset == 0 && is_keyframe && is_video;
    let room: nat = if pcr { 176 } else { 184 };
    let size = ts_payload_size(pes.len(), offset, pcr);
    let stuffing = (room - size) as nat;
    assert(adaptation_bytes(pcr, stuffing, pts).len() == if pcr { 8 + stuffing } else { stuffing });
}

/// The transport stream of an access unit is a whole number of 188-byte
/// packets, each starting with the sync byte, and the continuity counter
/// stays below 16.
pub proof fn law_transport_packets_are_whole(
    pes: Seq<u8>,
    offset: nat,
    pts: u64,
    is_video: bool,
    is_keyframe: bool,
    cc: u8,
)
    ensures
        ts_packets(pes, offset, pts, is_video, is_keyframe, cc).0.len() % 188 == 0,
        forall|k: int|
            0 <= k < ts_packets(pes, offset, pts, is_video, is_keyframe, cc).0.len() / 188
                ==> #[trigger] ts_packets(pes, offset, pts, is_video, is_keyframe, cc).0[188 * k]
                == 0x47u8,
        offset < pes.len() ==> ts_packets(pes, offset, pts, is_video, is_keyframe, cc).1 < 16,
    decreases pes.len() - offset,
{
    if offset < pes.len() {
        let pcr = offset == 0 && is_keyframe && is_video;
        let next = offset + ts_payload_size(pes.len(), offset, pcr);
        let ncc = next_cc(cc);
        law_transport_packets_are_whole(pes, next, pts, is_video, is_keyframe, ncc);
        lemma_ts_packet_len(pes, offset, pts, is_video, is_keyframe, cc);
        let p = ts_packet(pes, offset, pts, is_video, is_keyframe, cc);
        let rest = ts_packets(pes, next, pts, is_video, is_keyframe, ncc);
        let all = ts_packets(pes, offset, pts, is_video, is_keyframe, cc);
        assert(all.0 == p + rest.0);
        assert forall|k: int| 0 <= k < all.0.len() / 188 implies #[trigger] all.0[188 * k] == 0x47u8 by {
            if k > 0 {
                assert(all.0[188 * k] == rest.0[188 * (k - 1)]);
            }
        }
        assert(ncc < 16) by (bit_vector)
            requires ncc == (((cc & 0x0Fu8) + 1) as u8) & 0x0Fu8;
        if next >= pes.len() {
            assert(all.1 == ncc);
        }
    }
}


/// The continuity counter advances by one for every packet written, modulo
/// 16: after the packets of an access unit it stands as many steps past
/// the starting counter as there are packets. (With no packet to write, a
/// counter above 15 comes back unchanged, so that case needs a counter
/// below 16.)
pub proof fn law_continuity_counts_packets(
    pes: Seq<u8>,
    offset: nat,
    pts: u64,
    is_video: bool,
    is_keyframe: bool,
    cc: u8,
)
    requires
        cc < 16 || offset < pes.len(),
    ensures
        ts_packets(pes, offset, pts, is_video, is_keyframe, cc).1 as int == (cc as int
            + ts_packets(pes, offset, pts, is_video, is_keyframe, cc).0.len() / 188) % 16,
    decreases pes.len() - offset,
{
    if offset < pes.len() {
        let pcr = offset == 0 && is_keyframe && is_video;
        let next = offset + ts_payload_size(pes.len(), offset, pcr);
        let ncc = next_cc(cc);
        assert(ncc as int == (cc as int + 1) % 16 && ncc < 16) by (bit_vector)
            requires
                ncc == (((cc & 0x0Fu8) + 1) as u8) & 0x0Fu8,
        ;
        law_continuity_counts_packets(pes, next, pts, is_video, is_keyframe, ncc);
        law_transport_packets_are_whole(pes, next, pts, is_video, is_keyframe, ncc);
        lemma_ts_packet_len(pes, offset, pts, is_video, is_keyframe, cc);
        let rest = ts_packets(pes, next, pts, is_video, is_keyframe, ncc);
        let all = ts_packets(pes, offset, pts, is_video, is_keyframe, cc);
        assert(all.0.len() == 188 + rest.0.len());
        let q = rest.0.len() / 188;
        assert(rest.0.len() == 188 * q);
        assert(all.0.len() / 188 == q + 1);
        assert((cc as int + q + 1) % 16 == ((cc as int + 1) % 16 + q) % 16) by (nonlinear_arith);
    } else {
        assert(cc as int % 16 == cc as int);
    }
}


/// The file name of segment `index` of a stream: `<stream_id>_<index>.ts`.
pub open spec fn segment_file_name(stream_id: Seq<char>, index: u32) -> Seq<char> {
    stream_id + "_"@ + dec_digits(index as nat) + ".ts"@
}

/// The segments a playlist lists: at most `max_segments` of the most recent
/// ones, each with its duration in 90 kHz clock ticks; `segment_index` is
/// the number of the segment being written.
#[derive(Debug)]
pub struct SegmentWindow {
    stream_id: String,
    max_segments: usize,
    segment_index: u32,
    segments: Vec<(String, u64)>,
}

/// The view of a window: stream id, limit, current index, and the listed
/// segments (file name, duration in ticks), oldest first.
pub struct SegmentWindowView {
    pub stream_id: Seq<char>,
    pub max_segments: nat,
    pub segment_index: u32,
    pub segments: Seq<(Seq<char>, u64)>,
}

impl View for SegmentWindow {
    type V = SegmentWindowView;

    closed spec fn view(&self) -> SegmentWindowView {
        SegmentWindowView {
            stream_id: self.stream_id@,
            max_segments: self.max_segments as nat,
            segment_index: self.segment_index,
            segments: self.segments@.map_values(|e: (String, u64)| (e.0@, e.1)),
        }
    }
}

impl SegmentWindow {
    /// The window never lists more segments than its limit.
    #[verifier::type_invariant]
    spec fn within_limit(&self) -> bool {
        self.segments@.len() <= self.max_segments
    }

    /// An empty window for a stream, listing at most `max_segments` segments.
    pub fn new(stream_id: &str, max_segments: usize) -> (r: Self)
        ensures
            r@.stream_id == stream_id@,
            r@.max_segments == max_segments,
            r@.segment_index == 0,
            r@.segments == Seq::<(Seq<char>, u64)>::empty(),
    {
        let r = SegmentWindow {
            stream_id: String::from_str(stream_id),
            max_segments,
            segment_index: 0,
            segments: Vec::new(),
        };
        assert(r@.segments =~= Seq::<(Seq<char>, u64)>::empty());
        r
    }

    /// The file name of the segment being written.
    pub fn current_file_name(&self) -> (r: String)
        ensures
            r@ == segment_file_name(self@.stream_id, self@.segment_index),
    {
        let mut s = copy_string(&self.stream_id);
        s.append("_");
        push_u64(&mut s, self.segment_index as u64);
        s.append(".ts");
        s
    }

    /// Closes the segment being written, which lasted `duration` ticks: it
    /// joins the list, the oldest listed segment leaves when the list would
    /// exceed its limit (its file name is returned, for deletion), and the
    /// next segment gets the next number.
    pub fn close_segment(&mut self, duration: u64) -> (evicted: Option<String>)
        requires
            old(self)@.segment_index < u32::MAX,
        ensures
            final(self)@.segments.len() <= final(self)@.max_segments,
            final(self)@.stream_id == old(self)@.stream_id,
            final(self)@.max_segments == old(self)@.max_segments,
            final(self)@.segment_index == old(self)@.segment_index + 1,
            ({
                let added = old(self)@.segments.push(
                    (segment_file_name(old(self)@.stream_id, old(self)@.segment_index), duration),
                );
                if added.len() > old(self)@.max_segments {
                    &&& final(self)@.segments == added.drop_first()
                    &&& evicted matches Some(f) && f@ == added[0].0
                } else {
                    &&& final(self)@.segments == added
                    &&& evicted is None
                }
            }),
    {
        proof {
            use_type_invariant(&*self);
        }
        let name = self.current_file_name();
        let ghost before = self@.segments;
        let ghost added = before.push((name@, duration));
        let mut segs: Vec<(String, u64)> = Vec::new();
        std::mem::swap(&mut segs, &mut self.segments);
        let ghost raw = segs@;
        assert(raw.map_values(|e: (String, u64)| (e.0@, e.1)) == before);
        let evicted = if segs.len() < self.max_segments {
            segs.push((name, duration));
            assert(segs@.map_values(|e: (String, u64)| (e.0@, e.1)) =~= added);
            None
        } else if segs.len() == 0 {
            assert(added.drop_first() =~= Seq::<(Seq<char>, u64)>::empty());
            assert(segs@.map_values(|e: (String, u64)| (e.0@, e.1)) =~= added.drop_first());
            Some(name)
        } else {
            let (old_name, _) = segs.remove(0);
            assert(segs@ =~= raw.drop_first());
            segs.push((name, duration));
            assert(segs@.map_values(|e: (String, u64)| (e.0@, e.1)) =~= added.drop_first());
            Some(old_name)
        };
        self.segments = segs;
        self.segment_index = self.segment_index + 1;
        evicted
    }

    /// The number of the segment being written.
    pub fn segment_index(&self) -> (r: u32)
        ensures
            r == self@.segment_index,
    {
        self.segment_index
    }

    /// The listed segments, oldest first: file names and durations in ticks.
    pub fn segments(&self) -> (r: Vec<(String, u64)>)
        ensures
            r@.map_values(|e: (String, u64)| (e.0@, e.1)) == self@.segments,
    {
        let mut out: Vec<(String, u64)> = Vec::new();
        let n = self.segments.len();
        for i in 0..n
            invariant
                n == self.segments@.len(),
                out@.map_values(|e: (String, u64)| (e.0@, e.1)) == self.segments@.take(
                    i as int,
                ).map_values(|e: (String, u64)| (e.0@, e.1)),
        {
            let (name, d) = (&self.segments[i].0, self.segments[i].1);
            let ghost prev = out@;
            let copied = copy_string(name);
            out.push((copied, d));
            assert(out@ == prev.push(out@.last()));
            assert(out@.map_values(|e: (String, u64)| (e.0@, e.1)) =~= prev.map_values(
                |e: (String, u64)| (e.0@, e.1),
            ).push((self.segments@[i as int].0@, self.segments@[i as int].1)));
            assert(self.segments@.take(i + 1) =~= self.segments@.take(i as int).push(
                self.segments@[i as int],
            ));
            assert(out@.map_values(|e: (String, u64)| (e.0@, e.1)) =~= self.segments@.take(
                i + 1,
            ).map_values(|e: (String, u64)| (e.0@, e.1)));
        }
        assert(self.segments@.take(n as int) =~= self.segments@);
        out
    }

    /// The media sequence number of the first listed segment: the current
    /// index less the number listed, or 0.
    pub fn media_sequence(&self) -> (r: u32)
        ensures
            r == window_media_sequence(self@),
    {
        let n = self.segments.len();
        if n as u64 > self.segment_index as u64 {
            0
        } else {
            self.segment_index - n as u32
        }
    }
}

/// The media sequence number of a window: its current index less the
/// number of segments listed, or 0.
pub open spec fn window_media_sequence(v: SegmentWindowView) -> u32 {
    if v.segment_index >= v.segments.len() {
        (v.segment_index - v.segments.len()) as u32
    } else {
        0u32
    }
}

/// The largest duration among the segments, in ticks (0 when there are none).
pub open spec fn max_duration(segments: Seq<(Seq<char>, u64)>) -> u64
    decreases segments.len(),
{
    if segments.len() == 0 {
        0
    } else {
        let m = max_duration(segments.drop_last());
        if segments.last().1 > m {
            segments.last().1
        } else {
            m
        }
    }
}

/// The longest duration is the duration of a listed segment, and no listed
/// segment lasts longer; with nothing listed it is 0.
pub proof fn law_max_duration_is_the_longest(segments: Seq<(Seq<char>, u64)>)
    ensures
        forall|i: int| 0 <= i < segments.len() ==> #[trigger] segments[i].1 <= max_duration(segments),
        segments.len() == 0 ==> max_duration(segments) == 0,
        segments.len() > 0 ==> exists|i: int|
            0 <= i < segments.len() && #[trigger] segments[i].1 == max_duration(segments),
    decreases segments.len(),
{
    if segments.len() > 0 {
        let rest = segments.drop_last();
        law_max_duration_is_the_longest(rest);
        assert forall|i: int| 0 <= i < segments.len() implies #[trigger] segments[i].1 <= max_duration(
            segments,
        ) by {
            if i < segments.len() - 1 {
                assert(segments[i] == rest[i]);
            }
        }
        if segments.last().1 > max_duration(rest) {
            assert(segments[segments.len() - 1].1 == max_duration(segments));
        } else if rest.len() == 0 {
            assert(segments[0].1 == 0);
            assert(segments[0].1 == max_duration(segments));
        } else {
            let k = choose|k: int| 0 <= k < rest.len() && #[trigger] rest[k].1 == max_duration(rest);
            assert(segments[k] == rest[k]);
            assert(segments[k].1 == max_duration(segments));
        }
    }
}

/// The playlist's target duration covers every listed segment: each lasts
/// less than the target duration in whole seconds, and the target is the
/// longest one's whole seconds plus one.
pub proof fn law_target_duration_covers_every_segment(segments: Seq<(Seq<char>, u64)>)
    ensures
        forall|i: int| 0 <= i < segments.len() ==> #[trigger] segments[i].1 / 90000 < max_duration(segments)
            / 90000 + 1,
        segments.len() > 0 ==> exists|i: int|
            0 <= i < segments.len() && max_duration(segments) / 90000 == #[trigger] segments[i].1 / 90000,
{
    law_max_duration_is_the_longest(segments);
    assert forall|i: int| 0 <= i < segments.len() implies #[trigger] segments[i].1 / 90000 < max_duration(
        segments,
    ) / 90000 + 1 by {
        let a = segments[i].1;
        let b = max_duration(segments);
        assert(a / 90000 <= b / 90000) by (nonlinear_arith)
            requires a <= b;
    }
    if segments.len() > 0 {
        let k = choose|k: int| 0 <= k < segments.len() && #[trigger] segments[k].1 == max_duration(segments);
        assert(max_duration(segments) / 90000 == segments[k].1 / 90000);
    }
}

impl SegmentWindow {
    /// The playlist's target duration in whole seconds: the longest listed
    /// segment, rounded down, plus one.
    pub fn target_duration(&self) -> (r: u32)
        requires
            max_duration(self@.segments) / 90000 < u32::MAX,
        ensures
            r == max_duration(self@.segments) / 90000 + 1,
            forall|i: int| 0 <= i < self@.segments.len() ==> #[trigger] self@.segments[i].1 / 90000 < r,
            self@.segments.len() > 0 ==> exists|i: int|
                0 <= i < self@.segments.len() && r == #[trigger] self@.segments[i].1 / 90000 + 1,
            self@.segments.len() == 0 ==> r == 1,
    {
        proof {
            law_target_duration_covers_every_segment(self@.segments);
            law_max_duration_is_the_longest(self@.segments);
        }
        let mut m: u64 = 0;
        let n = self.segments.len();
        let ghost sv = self@.segments;
        for i in 0..n
            invariant
                n == self.segments@.len(),
                sv == self.segments@.map_values(|e: (String, u64)| (e.0@, e.1)),
                m == max_duration(sv.take(i as int)),
        {
            assert(sv.take(i + 1).drop_last() =~= sv.take(i as int));
            if self.segments[i].1 > m {
                m = self.segments[i].1;
            }
        }
        assert(sv.take(n as int) =~= sv);
        (m / 90000) as u32 + 1
    }
}

/// The playlist entries of the segments: for each, `#EXTINF:` with its
/// written duration (from `durations`, in the same order), then its file name.
pub open spec fn playlist_entries(segments: Seq<(Seq<char>, u64)>, durations: Seq<Seq<char>>) -> Seq<char>
    decreases segments.len(),
{
    if segments.len() == 0 {
        Seq::empty()
    } else {
        playlist_entries(segments.drop_last(), durations.drop_last()) + "#EXTINF:"@
            + durations.last() + ",\n"@ + segments.last().0 + "\n"@
    }
}

/// The playlist of a window: the header with its version, target duration
/// and media sequence number, then one entry per listed segment.
pub open spec fn playlist_of(v: SegmentWindowView, target: u32, durations: Seq<Seq<char>>) -> Seq<char> {
    "#EXTM3U\n#EXT-X-VERSION:3\n#EXT-X-TARGETDURATION:"@ + dec_digits(target as nat)
        + "\n#EXT-X-MEDIA-SEQUENCE:"@ + dec_digits(window_media_sequence(v) as nat) + "\n"@
        + playlist_entries(v.segments, durations)
}

impl SegmentWindow {
    /// The playlist text of the window. `durations` holds the duration of
    /// each listed segment as it is written after `#EXTINF:` (seconds with
    /// three decimals), oldest first.
    pub fn playlist(&self, durations: &Vec<String>) -> (r: String)
        requires
            durations@.len() == self@.segments.len(),
            max_duration(self@.segments) / 90000 < u32::MAX,
        ensures
            r@ == playlist_of(self@, (max_duration(self@.segments) / 90000 + 1) as u32, durations.deep_view()),
    {
        let target = self.target_duration();
        let mut s = String::from_str("#EXTM3U\n#EXT-X-VERSION:3\n#EXT-X-TARGETDURATION:");
        push_u64(&mut s, target as u64);
        s.append("\n#EXT-X-MEDIA-SEQUENCE:");
        push_u64(&mut s, self.media_sequence() as u64);
        s.append("\n");
        let ghost head = s@;
        let ghost sv = self@.segments;
        let ghost dv = durations.deep_view();
        let n = self.segments.len();
        for i in 0..n
            invariant
                n == self.segments@.len(),
                n == durations@.len(),
                sv == self.segments@.map_values(|e: (String, u64)| (e.0@, e.1)),
                dv == durations.deep_view(),
                s@ == head + playlist_entries(sv.take(i as int), dv.take(i as int)),
        {
            assert(sv.take(i + 1).drop_last() =~= sv.take(i as int));
            assert(dv.take(i + 1).drop_last() =~= dv.take(i as int));
            assert(dv.take(i + 1).last() == durations@[i as int]@);
            assert(sv.take(i + 1).last().0 == self.segments@[i as int].0@);
            s.append("#EXTINF:");
            s.append(durations[i].as_str());
            s.append(",\n");
            s.append(self.segments[i].0.as_str());
            s.append("\n");
            assert(s@ =~= head + playlist_entries(sv.take(i + 1), dv.take(i + 1)));
        }
        assert(sv.take(n as int) =~= sv);
        assert(dv.take(n as int) =~= dv);
        s
    }
}

/// Whether a new segment starts at a video frame: only at a key frame, once
/// the current segment has lasted at least the target duration (given in
/// milliseconds; time stamps run at 90 kHz).
pub open spec fn starts_new_segment(is_keyframe: bool, pts: u64, start_pts: u64, segment_ms: u32) -> bool {
    is_keyframe && (pts - start_pts) >= segment_ms as nat * 90
}

/// Decides whether the segment being written ends before a video frame.
pub fn should_start_new_segment(is_keyframe: bool, pts: u64, start_pts: u64, segment_ms: u32) -> (r:
    bool)
    requires
        start_pts <= pts,
    ensures
        r == starts_new_segment(is_keyframe, pts, start_pts, segment_ms),
{
    is_keyframe && (pts - start_pts) >= (segment_ms as u64) * 90
}

/// The window keeps the most recent segments in the order they were closed,
/// never more than its limit, and numbers them consecutively: the first
/// listed one has the media sequence number, and the last closed one is
/// last.
pub proof fn law_window_after_close(before: SegmentWindowView, after: SegmentWindowView, duration: u64)
    requires
        before.segments.len() <= before.max_segments,
        before.max_segments > 0,
        after.max_segments == before.max_segments,
        after.segment_index == before.segment_index + 1,
        after.segments == ({
            let added = before.segments.push(
                (segment_file_name(before.stream_id, before.segment_index), duration),
            );
            if added.len() > before.max_segments {
                added.drop_first()
            } else {
                added
            }
        }),
    ensures
        after.segments.len() <= after.max_segments,
        after.segments.len() == if before.segments.len() < before.max_segments {
            before.segments.len() + 1
        } else {
            before.max_segments
        },
        after.segments.last() == (segment_file_name(before.stream_id, before.segment_index), duration),
{
}

} // verus!
