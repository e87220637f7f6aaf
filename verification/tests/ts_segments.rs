use hipocast::hls::{
    crc32_mpeg2_of, pat_packet, pes_ts_packets, pmt_packet, should_start_new_segment,
    SegmentWindow,
};

fn reference_crc(data: &[u8]) -> u32 {
    let mut crc = 0xFFFF_FFFFu32;
    for &b in data {
        crc ^= (b as u32) << 24;
        for _ in 0..8 {
            crc = if crc & 0x8000_0000 != 0 { (crc << 1) ^ 0x04C1_1DB7 } else { crc << 1 };
        }
    }
    crc
}

#[test]
fn crc_check_value() {
    assert_eq!(crc32_mpeg2_of(b"123456789"), 0x0376_E6E7);
    assert_eq!(crc32_mpeg2_of(&[]), 0xFFFF_FFFF);
    let data: Vec<u8> = (0u8..=255).collect();
    assert_eq!(crc32_mpeg2_of(&data), reference_crc(&data));
}

#[test]
fn pat_packet_layout() {
    let p = pat_packet(0);
    assert_eq!(p.len(), 188);
    assert_eq!(&p[..4], &[0x47, 0x40, 0x00, 0x10]);
    let section = [0x00u8, 0x00, 0xB0, 0x0D, 0x00, 0x01, 0xC1, 0x00, 0x00, 0x00, 0x01, 0xE1, 0x00];
    assert_eq!(&p[4..17], &section);
    assert_eq!(&p[17..21], &reference_crc(&section[1..]).to_be_bytes());
    assert!(p[21..].iter().all(|&b| b == 0xFF));
    assert_eq!(pat_packet(17)[3], 0x11);
}

#[test]
fn pmt_packet_layout() {
    let p = pmt_packet(3);
    assert_eq!(p.len(), 188);
    assert_eq!(&p[..4], &[0x47, 0x50, 0x00, 0x13]);
    assert_eq!(&p[4..8], &[0x00, 0x02, 0xB0, 0x17]);
    assert_eq!(p[17], 0x1B);
    assert_eq!(&p[27..31], &reference_crc(&p[5..27]).to_be_bytes());
    assert!(p[31..].iter().all(|&b| b == 0xFF));
}

#[test]
fn a_small_key_frame_fits_one_packet_with_its_pcr() {
    let data = [7u8; 10];
    let (ts, cc) = pes_ts_packets(&data, 90000, true, true, 0);
    assert_eq!(cc, 1);
    assert_eq!(ts.len(), 188);
    assert_eq!(&ts[..4], &[0x47, 0x41, 0x00, 0x30]);
    assert_eq!(&ts[4..12], &[159, 0x50, 0x00, 0x00, 0xAF, 0xC8, 0x7E, 0x00]);
    assert!(ts[12..164].iter().all(|&b| b == 0xFF));
    assert_eq!(
        &ts[164..178],
        &[0x00, 0x00, 0x01, 0xE0, 0x00, 0x12, 0x80, 0x80, 5, 0x21, 0x00, 0x05, 0xBF, 0x21]
    );
    assert_eq!(&ts[178..], &data);
}

#[test]
fn a_small_audio_frame_is_padded() {
    let data = [1u8, 2, 3, 4, 5, 6, 7, 8, 9, 10];
    let (ts, cc) = pes_ts_packets(&data, 90000, false, false, 15);
    assert_eq!(cc, 0);
    assert_eq!(ts.len(), 188);
    assert_eq!(&ts[..4], &[0x47, 0x41, 0x01, 0x1F]);
    assert_eq!(&ts[4..6], &[159, 0x00]);
    assert!(ts[6..164].iter().all(|&b| b == 0xFF));
    assert_eq!(&ts[164..168], &[0x00, 0x00, 0x01, 0xC0]);
    assert_eq!(&ts[178..], &data);
}

#[test]
fn a_large_frame_spans_several_packets() {
    let data: Vec<u8> = (0..400u32).map(|i| (i % 251) as u8).collect();
    let (ts, cc) = pes_ts_packets(&data, 0, true, false, 15);
    assert_eq!(ts.len(), 3 * 188);
    assert_eq!(cc, 2);
    for k in 0..3 {
        assert_eq!(ts[188 * k], 0x47);
    }
    assert_eq!(&ts[188..192], &[0x47, 0x01, 0x00, 0x10]);
    assert_eq!(ts[2 * 188 + 3], 0x11);
    // The last packet carries the final 46 bytes after 138 bytes of padding.
    assert_eq!(&ts[2 * 188 + 4..2 * 188 + 6], &[137, 0x00]);
    assert_eq!(&ts[3 * 188 - 46..], &data[400 - 46..]);
}

#[test]
fn an_exactly_full_packet_needs_no_padding() {
    let data = vec![0xAAu8; 184 - 14];
    let (ts, cc) = pes_ts_packets(&data, 0, false, false, 0);
    assert_eq!(ts.len(), 188);
    assert_eq!(cc, 1);
    assert_eq!(&ts[..4], &[0x47, 0x41, 0x01, 0x10]);
    assert_eq!(ts[4], 0x00);
}

#[test]
fn the_window_keeps_the_latest_segments() {
    let mut w = SegmentWindow::new("s", 2);
    assert_eq!(w.current_file_name(), "s_0.ts");
    assert_eq!(w.media_sequence(), 0);
    assert_eq!(w.target_duration(), 1);
    assert_eq!(w.close_segment(180000), None);
    assert_eq!(w.close_segment(270000), None);
    assert_eq!(w.media_sequence(), 0);
    assert_eq!(w.close_segment(90000), Some("s_0.ts".to_string()));
    assert_eq!(
        w.segments(),
        vec![("s_1.ts".to_string(), 270000), ("s_2.ts".to_string(), 90000)]
    );
    assert_eq!(w.media_sequence(), 1);
    assert_eq!(w.target_duration(), 4);
    assert_eq!(w.current_file_name(), "s_3.ts");
}

#[test]
fn segments_start_at_key_frames_after_the_target_duration() {
    assert!(should_start_new_segment(true, 180000, 0, 2000));
    assert!(!should_start_new_segment(false, 900000, 0, 2000));
    assert!(!should_start_new_segment(true, 179999, 0, 2000));
    assert!(should_start_new_segment(true, 1_000_000, 820_000, 2000));
}

#[test]
fn a_window_never_lists_more_than_its_limit() {
    let mut w = SegmentWindow::new("x", 3);
    for k in 0..10u64 {
        let evicted = w.close_segment(90000 + k);
        let listed = w.segments();
        assert!(listed.len() <= 3);
        assert_eq!(listed.last().unwrap(), &(format!("x_{}.ts", k), 90000 + k));
        assert_eq!(evicted.is_some(), k >= 3);
        assert_eq!(w.segment_index(), k as u32 + 1);
    }
    assert_eq!(w.media_sequence(), 7);
}

#[test]
fn a_window_without_room_evicts_at_once() {
    let mut w = SegmentWindow::new("z", 0);
    assert_eq!(w.close_segment(5), Some("z_0.ts".to_string()));
    assert!(w.segments().is_empty());
    assert_eq!(w.media_sequence(), 1);
}

#[test]
fn the_counter_advances_once_per_packet() {
    for len in [0usize, 1, 170, 171, 354, 1000, 5000] {
        let data = vec![0x11u8; len];
        for cc in [0u8, 7, 15] {
            for (video, key) in [(true, true), (true, false), (false, false)] {
                let (ts, next) = pes_ts_packets(&data, 12345, video, key, cc);
                assert_eq!(ts.len() % 188, 0);
                assert_eq!(next as usize, (cc as usize + ts.len() / 188) % 16);
                for (k, packet) in ts.chunks(188).enumerate() {
                    assert_eq!(packet[0], 0x47);
                    assert_eq!((packet[3] & 0x0F) as usize, (cc as usize + k) % 16);
                }
            }
        }
    }
}

#[test]
fn the_playlist_lists_the_window() {
    let mut w = SegmentWindow::new("s", 2);
    w.close_segment(180000);
    w.close_segment(270000);
    w.close_segment(90000);
    let text = w.playlist(&vec!["3.000".to_string(), "1.000".to_string()]);
    assert_eq!(
        text,
        "#EXTM3U\n#EXT-X-VERSION:3\n#EXT-X-TARGETDURATION:4\n#EXT-X-MEDIA-SEQUENCE:1\n\
         #EXTINF:3.000,\ns_1.ts\n#EXTINF:1.000,\ns_2.ts\n"
    );
    let empty = SegmentWindow::new("e", 3);
    assert_eq!(
        empty.playlist(&vec![]),
        "#EXTM3U\n#EXT-X-VERSION:3\n#EXT-X-TARGETDURATION:1\n#EXT-X-MEDIA-SEQUENCE:0\n"
    );
}
