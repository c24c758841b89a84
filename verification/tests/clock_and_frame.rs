use video_pipeline::clock::StreamClock;
use video_pipeline::counter::Counter;
use video_pipeline::frame::{convert, DecodedFrame};
use video_pipeline::yield_now;

#[test]
fn clock_absent_pts_gives_absent_delay() {
    let clock = StreamClock::new(1, 25);
    assert_eq!(clock.convert_pts_to_instant(None, 0), None);
    assert_eq!(clock.convert_pts_to_instant(None, 123_456), None);
}

#[test]
fn clock_two_seconds_at_twenty_five_fps() {
    // time base 1/25 and pts 50, asked at the start instant: 2.0 s
    let clock = StreamClock::new(1, 25);
    assert_eq!(clock.convert_pts_to_instant(Some(50), 0), Some(2_000_000));
}

#[test]
fn clock_delays_nondecreasing_over_pts_sequence() {
    let clock = StreamClock::new(1, 25);
    let mut last = 0u64;
    for pts in [0i64, 1, 2, 3, 4] {
        let delay = clock.convert_pts_to_instant(Some(pts), 0).unwrap();
        assert!(delay >= last);
        last = delay;
    }
}

#[test]
fn clock_late_frame_yields_zero_delay() {
    let clock = StreamClock::new(1, 25);
    // frame due at 40 ms, asked 100 ms in: present immediately
    assert_eq!(clock.convert_pts_to_instant(Some(1), 100_000), Some(0));
    // a negative timestamp is before the origin: also immediate
    assert_eq!(clock.convert_pts_to_instant(Some(-7), 0), Some(0));
}

#[test]
fn clock_subtracts_elapsed_time() {
    let clock = StreamClock::new(1, 25);
    assert_eq!(clock.convert_pts_to_instant(Some(50), 500_000), Some(1_500_000));
}

#[test]
fn clock_odd_time_base() {
    // 1001/30000 seconds per tick: pts 30 lands at 1001/1000 s
    let clock = StreamClock::new(1001, 30000);
    assert_eq!(clock.convert_pts_to_instant(Some(30), 0), Some(1_001_000));
}

#[test]
fn clock_saturates_at_the_largest_delay() {
    let clock = StreamClock::new(u32::MAX, 1);
    assert_eq!(clock.convert_pts_to_instant(Some(i64::MAX), 0), Some(u64::MAX));
}

#[test]
fn converter_empty_frame_gives_empty_buffer() {
    let frame = DecodedFrame { width: 0, height: 0, stride: 0, data: Vec::new(), pts: None };
    let out = convert(&frame);
    assert_eq!(out.width, 0);
    assert_eq!(out.height, 0);
    assert!(out.data.is_empty());
}

#[test]
fn converter_packs_strided_rows_tightly() {
    // 4x2 pixels, rows padded from 12 to 14 bytes
    let width = 4usize;
    let height = 2usize;
    let stride = 14usize;
    let mut data = Vec::new();
    for b in 0..12u8 {
        data.push(b);
    }
    data.push(250);
    data.push(251);
    for b in 100..112u8 {
        data.push(b);
    }
    data.push(252);
    data.push(253);
    let frame = DecodedFrame { width, height, stride, data, pts: Some(0) };
    let out = convert(&frame);
    assert_eq!(out.width, 4);
    assert_eq!(out.height, 2);
    // exactly width * height * 3 bytes, tightly packed
    assert_eq!(out.data.len(), 24);
    // first logical row equals the first source row truncated to 4 pixels
    assert_eq!(&out.data[..12], &[0, 1, 2, 3, 4, 5, 6, 7, 8, 9, 10, 11]);
    // second row follows with no padding byte in between
    assert_eq!(
        &out.data[12..],
        &[100, 101, 102, 103, 104, 105, 106, 107, 108, 109, 110, 111]
    );
}

#[test]
fn converter_handles_unpadded_input() {
    let frame = DecodedFrame {
        width: 2,
        height: 1,
        stride: 6,
        data: vec![9, 8, 7, 6, 5, 4],
        pts: None,
    };
    let out = convert(&frame);
    assert_eq!(out.data, vec![9, 8, 7, 6, 5, 4]);
}

#[test]
fn blank_buffer_is_black_and_sized() {
    let buffer = video_pipeline::frame::DisplayBuffer::blank(500, 300);
    assert_eq!(buffer.width, 500);
    assert_eq!(buffer.height, 300);
    assert_eq!(buffer.data.len(), 500 * 300 * 3);
    assert!(buffer.data.iter().all(|b| *b == 0));
}

#[test]
fn counter_counts() {
    let mut counter = Counter::new();
    assert_eq!(counter.get(), 0);
    counter.inc();
    counter.inc();
    assert_eq!(counter.get(), 2);
    counter.dec();
    assert_eq!(counter.get(), 1);
    counter.reset();
    assert_eq!(counter.get(), 0);
}

#[test]
fn yield_now_is_pending_exactly_once() {
    let mut y = yield_now();
    assert!(!y.poll());
    assert!(y.poll());
    assert!(y.poll());
}
