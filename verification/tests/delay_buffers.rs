use audiopc::delay::{RevertBuffer, RingBuffer};

#[test]
fn ring_tap_reads_what_was_written() {
    let mut r: RingBuffer<i32> = RingBuffer::new(5, 0);
    assert_eq!(r.len(), 5);
    for x in 1..=7 {
        r.push(x);
    }
    // Newest is 7; a tap of d reads the sample pushed d pushes ago.
    assert_eq!(*r.tap(1), 7);
    assert_eq!(*r.tap(3), 5);
    assert_eq!(*r.tap(5), 3);
    assert_eq!(*r.tap(0), 3);
}

#[test]
fn ring_push_returns_oldest() {
    let mut r: RingBuffer<f32> = RingBuffer::new(3, 0.0);
    assert_eq!(r.push(1.0), 0.0);
    assert_eq!(r.push(2.0), 0.0);
    assert_eq!(r.push(3.0), 0.0);
    assert_eq!(r.push(4.0), 1.0);
    assert_eq!(r.push(5.0), 2.0);
    r.reset(0.5);
    assert_eq!(*r.tap(1), 0.5);
    assert_eq!(r.push(9.0), 0.5);
}

#[test]
fn ring_of_zero_length_holds_one_sample() {
    let mut r: RingBuffer<u8> = RingBuffer::new(0, 0);
    assert_eq!(r.len(), 1);
    assert_eq!(r.push(4), 0);
    assert_eq!(*r.tap(1), 4);
    assert_eq!(*r.tap(0), 4);
}

#[test]
fn delay_clamped_below_length() {
    let r: RingBuffer<f32> = RingBuffer::new(100, 0.0);
    assert_eq!(r.clamp_delay(10), 10);
    assert_eq!(r.clamp_delay(99), 99);
    assert_eq!(r.clamp_delay(100), 99);
    assert_eq!(r.clamp_delay(1_000_000), 99);
}

#[test]
fn revert_buffer_plays_back_reversed() {
    let mut b: RevertBuffer<f32> = RevertBuffer::new(3, 0.0);
    assert!(b.is_recording());
    assert_eq!(b.process(1.0), None);
    assert_eq!(b.process(2.0), None);
    assert_eq!(b.process(3.0), None);
    assert_eq!(b.process(0.0), Some(3.0));
    assert!(b.is_playing());
    assert!(!b.is_recording());
    assert_eq!(b.process(0.0), Some(2.0));
    assert_eq!(b.process(0.0), Some(1.0));
    assert!(!b.is_playing());
    assert_eq!(b.process(0.0), None);
}

#[test]
fn revert_buffer_loops_when_asked() {
    let mut b: RevertBuffer<i32> = RevertBuffer::new(2, 0);
    b.set_loop(true);
    b.process(10);
    b.process(20);
    assert_eq!(b.process(0), Some(20));
    assert_eq!(b.process(0), Some(10));
    assert_eq!(b.process(0), Some(20));
    assert!(b.is_playing());
}

#[test]
fn revert_buffer_manual_playback_and_stop() {
    let mut b: RevertBuffer<i32> = RevertBuffer::new(8, 0);
    b.start_playback();
    assert!(!b.is_playing());
    b.process(1);
    b.process(2);
    b.start_playback();
    assert!(b.is_playing());
    assert_eq!(b.process(7), Some(2));
    b.stop();
    assert!(!b.is_playing() && !b.is_recording());
    assert_eq!(b.process(7), None);
    b.start_recording();
    assert!(b.is_recording());
    b.reset(0);
    assert!(b.is_recording() && !b.is_playing());
}
