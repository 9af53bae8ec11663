use jjy_clock::channel::{StatusChannel, StatusUpdate, CHANNEL_CAPACITY};
use jjy_clock::render::{byte_bits, render_line};
use jjy_clock::timebase::{split_clock, TimeBase};

#[test]
fn s5_sync_display_with_activity() {
    let line = render_line(&None, true, 0);
    let mut expected: Vec<u8> = b"Sync".to_vec();
    expected.extend(std::iter::repeat(0x20).take(36));
    expected.push(0xFF);
    assert_eq!(line, expected);
}

#[test]
fn s6_clock_display_after_update() {
    let tb = TimeBase { system_time: 10_000, clock: 3661 };
    // (3661 + (2975 + 25) / 1000) mod 86400 == 3664, i.e. 01:01:04.
    let line = render_line(&Some(tb), false, 12_975);
    assert_eq!(&line[..8], b"01:01:04");
    for cell in &line[8..40] {
        assert_eq!(*cell, 0x20);
    }
    assert_eq!(line[40], 0x20);
}

#[test]
fn extrapolation_formula() {
    let tb = TimeBase { system_time: 0, clock: 0 };
    assert_eq!(tb.extrapolate(0), 0);
    assert_eq!(tb.extrapolate(974), 0);
    assert_eq!(tb.extrapolate(975), 1);
    let wrap = TimeBase { system_time: 1_000, clock: 86_399 };
    assert_eq!(wrap.extrapolate(1_500), 86_399);
    assert_eq!(wrap.extrapolate(2_000), 0);
}

#[test]
fn clock_split_digits() {
    assert_eq!(split_clock(45_278), (12, 34, 38));
    assert_eq!(split_clock(0), (0, 0, 0));
    assert_eq!(split_clock(86_399), (23, 59, 59));
}

#[test]
fn data_byte_bit_levels() {
    let bits = byte_bits(0xA5);
    assert_eq!(bits, vec![true, false, true, false, false, true, false, true]);
    assert_eq!(byte_bits(0x00), vec![false; 8]);
    assert_eq!(byte_bits(0xFF), vec![true; 8]);
}

#[test]
fn channel_is_fifo() {
    let mut ch = StatusChannel::new();
    let tb = TimeBase { system_time: 7, clock: 42 };
    assert!(ch.try_send(StatusUpdate::JJYStatus(true)));
    assert!(ch.try_send(StatusUpdate::TimeBaseUpdate(tb)));
    assert!(ch.try_send(StatusUpdate::JJYStatus(false)));
    assert_eq!(ch.try_recv(), Some(StatusUpdate::JJYStatus(true)));
    assert_eq!(ch.try_recv(), Some(StatusUpdate::TimeBaseUpdate(tb)));
    assert_eq!(ch.try_recv(), Some(StatusUpdate::JJYStatus(false)));
    assert_eq!(ch.try_recv(), None);
}

#[test]
fn channel_refuses_fifth_update() {
    let mut ch = StatusChannel::new();
    for _ in 0..CHANNEL_CAPACITY {
        assert!(ch.try_send(StatusUpdate::JJYStatus(true)));
    }
    assert_eq!(ch.len(), CHANNEL_CAPACITY);
    assert!(!ch.try_send(StatusUpdate::JJYStatus(false)));
    assert_eq!(ch.len(), CHANNEL_CAPACITY);
    // The refused update is not queued; the oldest comes out first.
    assert_eq!(ch.try_recv(), Some(StatusUpdate::JJYStatus(true)));
}

#[test]
fn channel_empty_receive() {
    let mut ch = StatusChannel::new();
    assert_eq!(ch.try_recv(), None);
    assert_eq!(ch.len(), 0);
}
