use jjy_clock::BitWidth;
use jjy_clock::frame::{encode_frame, to_minute_hour_day};

#[test]
fn round_trip_samples() {
    for (minute, hour, day) in [
        (0, 0, 1),
        (59, 23, 366),
        (34, 12, 158),
        (1, 2, 3),
        (30, 9, 100),
        (45, 18, 250),
    ] {
        let frame = encode_frame(minute, hour, day);
        assert_eq!(frame.len(), 38);
        assert_eq!(to_minute_hour_day(&frame), Some((minute, hour, day)));
    }
}

#[test]
fn encoded_frame_layout() {
    // minute 34 -> tens 3 (011), units 4 (0100); hour 12 -> tens 1, units 2;
    // day 158 -> hundreds 1, tens 5, units 8.
    let frame = encode_frame(34, 12, 158);
    for p in [0, 9, 19, 29] {
        assert_eq!(frame[p], BitWidth::Marker);
    }
    let bit = |b: bool| if b { BitWidth::Short } else { BitWidth::Long };
    // Minute: 40 20 10 at 1..3, 8 4 2 1 at 5..8.
    assert_eq!(frame[1], bit(false));
    assert_eq!(frame[2], bit(true));
    assert_eq!(frame[3], bit(true));
    assert_eq!(frame[5], bit(false));
    assert_eq!(frame[6], bit(true));
    assert_eq!(frame[7], bit(false));
    assert_eq!(frame[8], bit(false));
    // Hour: 20 10 at 12..13, 8 4 2 1 at 15..18.
    assert_eq!(frame[12], bit(false));
    assert_eq!(frame[13], bit(true));
    assert_eq!(frame[15], bit(false));
    assert_eq!(frame[16], bit(false));
    assert_eq!(frame[17], bit(true));
    assert_eq!(frame[18], bit(false));
    // Day: 200 100 at 22..23, 80 40 20 10 at 25..28, 8 4 2 1 at 30..33.
    assert_eq!(frame[22], bit(false));
    assert_eq!(frame[23], bit(true));
    assert_eq!(frame[25], bit(false));
    assert_eq!(frame[26], bit(true));
    assert_eq!(frame[27], bit(false));
    assert_eq!(frame[28], bit(true));
    assert_eq!(frame[30], bit(true));
    assert_eq!(frame[31], bit(false));
    assert_eq!(frame[32], bit(false));
    assert_eq!(frame[33], bit(false));
    // Hour parity even (two 1-bits), minute parity odd (three 1-bits).
    assert_eq!(frame[36], bit(false));
    assert_eq!(frame[37], bit(true));
}

fn flipped(frame: &[BitWidth], p: usize) -> Vec<BitWidth> {
    let mut v = frame.to_vec();
    v[p] = match v[p] {
        BitWidth::Short => BitWidth::Long,
        BitWidth::Long => BitWidth::Short,
        other => other,
    };
    v
}

#[test]
fn single_flip_in_minute_field_fails() {
    let frame = encode_frame(34, 12, 158);
    for p in [1, 2, 3, 5, 6, 7, 8] {
        assert_eq!(to_minute_hour_day(&flipped(&frame, p)), None);
    }
}

#[test]
fn single_flip_in_hour_field_fails() {
    let frame = encode_frame(34, 12, 158);
    for p in [12, 13, 15, 16, 17, 18] {
        assert_eq!(to_minute_hour_day(&flipped(&frame, p)), None);
    }
}

#[test]
fn flipped_parity_bit_fails() {
    let frame = encode_frame(34, 12, 158);
    assert_eq!(to_minute_hour_day(&flipped(&frame, 36)), None);
    assert_eq!(to_minute_hour_day(&flipped(&frame, 37)), None);
}

#[test]
fn marker_in_data_slot_fails() {
    let frame = encode_frame(34, 12, 158);
    for p in [1, 8, 13, 22, 33, 36, 37] {
        let mut v = frame.clone();
        v[p] = BitWidth::Marker;
        assert_eq!(to_minute_hour_day(&v), None);
        let mut w = frame.clone();
        w[p] = BitWidth::Unknown;
        assert_eq!(to_minute_hour_day(&w), None);
    }
}
