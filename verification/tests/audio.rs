//! The ring buffer and the mock capture.

use dl_voice_typing::audio::{level_due, AudioRingBuffer, MockAudioCapture};

#[test]
fn test_mock_capture_lifecycle() {
    let mut cap = MockAudioCapture::new();
    assert!(!cap.is_capturing());
    assert!(cap.sample_rate().is_none());

    cap.start(|_: &[f32]| {}).unwrap();
    assert!(cap.is_capturing());
    assert_eq!(cap.sample_rate(), Some(48000));

    cap.stop();
    assert!(!cap.is_capturing());
    assert!(cap.sample_rate().is_none());
}

#[test]
fn test_mock_capture_default() {
    let cap = MockAudioCapture::default();
    assert!(!cap.is_capturing());
}

#[test]
fn test_ring_buffer_empty() {
    let mut rb = AudioRingBuffer::<f32>::new(100);
    assert!(rb.is_empty());
    assert_eq!(rb.len(), 0);
    assert_eq!(rb.snapshot_recent(10), Vec::<f32>::new());
    assert_eq!(rb.take_all(), Vec::<f32>::new());
}

#[test]
fn test_ring_buffer_push_and_take() {
    let mut rb = AudioRingBuffer::<f32>::new(100);
    rb.push(&[1.0, 2.0, 3.0]);
    assert_eq!(rb.len(), 3);
    assert_eq!(rb.take_all(), vec![1.0, 2.0, 3.0]);
    assert!(rb.is_empty());
}

#[test]
fn test_ring_buffer_snapshot_recent() {
    let mut rb = AudioRingBuffer::<f32>::new(100);
    rb.push(&[1.0, 2.0, 3.0, 4.0, 5.0]);
    assert_eq!(rb.snapshot_recent(3), vec![3.0, 4.0, 5.0]);
    assert_eq!(rb.snapshot_recent(10), vec![1.0, 2.0, 3.0, 4.0, 5.0]);
    assert_eq!(rb.len(), 5);
}

#[test]
fn test_ring_buffer_wraparound() {
    let mut rb = AudioRingBuffer::<f32>::new(4);
    rb.push(&[1.0, 2.0, 3.0, 4.0]);
    rb.push(&[5.0, 6.0]); // Overwrites 1.0, 2.0
    assert_eq!(rb.len(), 4);
    assert_eq!(rb.take_all(), vec![3.0, 4.0, 5.0, 6.0]);
}

#[test]
fn test_ring_buffer_wraparound_snapshot() {
    let mut rb = AudioRingBuffer::<f32>::new(4);
    rb.push(&[1.0, 2.0, 3.0, 4.0, 5.0, 6.0, 7.0]);
    assert_eq!(rb.snapshot_recent(4), vec![4.0, 5.0, 6.0, 7.0]);
    assert_eq!(rb.snapshot_recent(2), vec![6.0, 7.0]);
}

#[test]
fn test_ring_buffer_clear() {
    let mut rb = AudioRingBuffer::<f32>::new(100);
    rb.push(&[1.0, 2.0, 3.0]);
    rb.clear();
    assert!(rb.is_empty());
    assert_eq!(rb.take_all(), Vec::<f32>::new());
}

#[test]
fn test_ring_buffer_capacity_unchanged() {
    let mut rb = AudioRingBuffer::<f32>::new(100);
    rb.push(&[1.0; 50]);
    assert_eq!(rb.capacity(), 100);
    rb.take_all();
    assert_eq!(rb.capacity(), 100);
}

#[test]
fn writes_can_be_split() {
    let mut once = AudioRingBuffer::<i32>::new(5);
    once.push(&[1, 2, 3, 4, 5, 6, 7]);
    let mut split = AudioRingBuffer::<i32>::new(5);
    split.push(&[1, 2, 3]);
    split.push(&[4, 5, 6, 7]);
    assert_eq!(once.total_written(), split.total_written());
    assert_eq!(once.take_all(), split.take_all());
}

#[test]
fn the_level_is_reported_every_33_milliseconds() {
    assert!(!level_due(0, 0));
    assert!(!level_due(100, 132));
    assert!(level_due(100, 133));
    assert!(level_due(100, 1000));
    assert!(!level_due(100, 50));
    assert!(!level_due(u64::MAX, u64::MAX));
    assert!(level_due(u64::MAX - 33, u64::MAX));
}
