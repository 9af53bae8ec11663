use jjy_clock::BitWidth;
use jjy_clock::decoder::FrameDecoder;
use jjy_clock::frame::encode_frame;
use jjy_clock::timebase::TimeBase;

/// Feed one warm-up marker and then a full encoded prefix; the step that
/// brings the cursor to 38 is left to the caller.
fn feed_prefix(decoder: &mut FrameDecoder, frame: &[BitWidth]) {
    assert_eq!(decoder.step(BitWidth::Marker, 0), None);
    for (i, sym) in frame.iter().enumerate() {
        assert_eq!(decoder.step(*sym, i as u64), None);
    }
}

#[test]
fn s1_valid_frame_publishes_time_base() {
    let frame = encode_frame(34, 12, 158);
    let mut decoder = FrameDecoder::new();
    feed_prefix(&mut decoder, &frame);
    assert!(decoder.recording);
    assert_eq!(decoder.cursor, 38);
    // The symbol arriving at cursor 38 triggers the decode of the prefix.
    let published = decoder.step(BitWidth::Long, 99_000);
    assert_eq!(
        published,
        Some(TimeBase { system_time: 99_000, clock: 34 * 60 + 12 * 3600 + 38 })
    );
    assert_eq!(published.unwrap().clock, 45_278);
    assert!(decoder.recording);
    assert_eq!(decoder.cursor, 39);
}

#[test]
fn s2_bad_parity_resets_without_publishing() {
    let mut frame = encode_frame(34, 12, 158);
    frame[37] = match frame[37] {
        BitWidth::Short => BitWidth::Long,
        _ => BitWidth::Short,
    };
    let mut decoder = FrameDecoder::new();
    feed_prefix(&mut decoder, &frame);
    assert_eq!(decoder.step(BitWidth::Long, 99_000), None);
    assert!(!decoder.recording);
    assert_eq!(decoder.cursor, 0);
}

#[test]
fn s3_unknown_mid_frame_resets_and_resyncs() {
    let frame = encode_frame(34, 12, 158);
    let mut decoder = FrameDecoder::new();
    assert_eq!(decoder.step(BitWidth::Marker, 0), None);
    for sym in frame.iter().take(20) {
        assert_eq!(decoder.step(*sym, 1), None);
    }
    assert!(decoder.recording);
    assert_eq!(decoder.cursor, 20);
    assert_eq!(decoder.step(BitWidth::Unknown, 2), None);
    assert!(!decoder.recording);
    assert_eq!(decoder.cursor, 0);
    // A data symbol, then a fresh double marker, re-enters recording.
    assert_eq!(decoder.step(BitWidth::Short, 3), None);
    assert!(!decoder.recording);
    assert_eq!(decoder.step(BitWidth::Marker, 4), None);
    assert!(!decoder.recording);
    assert_eq!(decoder.step(BitWidth::Marker, 5), None);
    assert!(decoder.recording);
    assert_eq!(decoder.cursor, 1);
    assert_eq!(decoder.buffer[0], BitWidth::Marker);
}

#[test]
fn s4_glitchy_double_marker_restarts_frame() {
    let mut decoder = FrameDecoder::new();
    assert_eq!(decoder.step(BitWidth::Marker, 0), None);
    assert_eq!(decoder.step(BitWidth::Marker, 1), None);
    assert!(decoder.recording);
    assert_eq!(decoder.cursor, 1);
    // A third marker still pairs with the second: the later start wins.
    assert_eq!(decoder.step(BitWidth::Marker, 2), None);
    assert!(decoder.recording);
    assert_eq!(decoder.cursor, 1);
    assert_eq!(decoder.step(BitWidth::Short, 3), None);
    assert!(decoder.recording);
    assert_eq!(decoder.cursor, 2);
    assert_eq!(decoder.buffer[0], BitWidth::Marker);
    assert_eq!(decoder.buffer[1], BitWidth::Short);
}

#[test]
fn no_double_marker_never_records() {
    let mut decoder = FrameDecoder::new();
    let syms = [
        BitWidth::Short,
        BitWidth::Marker,
        BitWidth::Long,
        BitWidth::Marker,
        BitWidth::Short,
        BitWidth::Marker,
        BitWidth::Long,
    ];
    for (i, sym) in syms.iter().enumerate() {
        assert_eq!(decoder.step(*sym, i as u64), None);
        assert!(!decoder.recording);
    }
}

#[test]
fn marker_unknown_marker_still_pairs() {
    // `Unknown` resets framing but leaves the pending-marker flag, so two
    // markers separated only by an `Unknown` still count as a frame start.
    let mut decoder = FrameDecoder::new();
    assert_eq!(decoder.step(BitWidth::Marker, 0), None);
    assert_eq!(decoder.step(BitWidth::Unknown, 1), None);
    assert!(!decoder.recording);
    assert_eq!(decoder.step(BitWidth::Marker, 2), None);
    assert!(decoder.recording);
}
