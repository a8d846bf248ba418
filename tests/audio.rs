use paw_one::audio::{split_sample, AudioRingBuffer};
use paw_one::AUDIO_BUFFER_SIZE;

#[test]
fn overfilling_keeps_capacity_frames() {
    let mut ring = AudioRingBuffer::new();
    assert_eq!(ring.capacity(), AUDIO_BUFFER_SIZE);
    for i in 0..AUDIO_BUFFER_SIZE {
        assert!(ring.push((i as i32, -(i as i32))));
    }
    assert!(ring.is_full());
    assert!(!ring.push((9999, 9999)));
    assert_eq!(ring.len(), AUDIO_BUFFER_SIZE);
    assert_eq!(ring.pop(), Some((0, 0)));
    assert_eq!(ring.pop(), Some((1, -1)));
    assert_eq!(ring.len(), AUDIO_BUFFER_SIZE - 2);
    assert_eq!(ring.underruns(), 0);
}

#[test]
fn pop_on_empty_gives_nothing() {
    let mut ring = AudioRingBuffer::new();
    assert!(ring.is_empty());
    assert_eq!(ring.pop(), None);
    assert!(ring.push((5, 6)));
    assert!(!ring.is_empty());
    assert_eq!(ring.pop(), Some((5, 6)));
    assert_eq!(ring.pop(), None);
}

#[test]
fn split_sample_gives_big_endian_halves() {
    assert_eq!(split_sample(0x1234_5678), (0x1234, 0x5678));
    assert_eq!(split_sample(-1), (0xFFFF, 0xFFFF));
    assert_eq!(split_sample(i32::MIN), (0x8000, 0x0000));
    assert_eq!(split_sample(0), (0, 0));
}

#[test]
fn drain_short_of_frames_counts_one_underrun() {
    let mut ring = AudioRingBuffer::new();
    ring.push((0x0001_0002, 0x0003_0004));
    ring.push((-1, 0));
    ring.push((i32::MIN, i32::MAX));
    let mut half = vec![7u16; 16];
    let written = ring.drain_into(&mut half);
    assert_eq!(written, 3);
    assert_eq!(ring.underruns(), 1);
    assert!(ring.is_empty());
    assert_eq!(
        half,
        vec![1, 2, 3, 4, 0xFFFF, 0xFFFF, 0, 0, 0x8000, 0, 0x7FFF, 0xFFFF, 7, 7, 7, 7]
    );
    let written = ring.drain_into(&mut half);
    assert_eq!(written, 0);
    assert_eq!(ring.underruns(), 2);
    assert_eq!(half[0], 1);
}

#[test]
fn drain_that_fills_the_half_counts_no_underrun() {
    let mut ring = AudioRingBuffer::new();
    for i in 0..5 {
        ring.push((i, i));
    }
    let mut half = vec![0u16; 16];
    assert_eq!(ring.drain_into(&mut half), 4);
    assert_eq!(ring.underruns(), 0);
    assert_eq!(ring.len(), 1);
    assert_eq!(ring.pop(), Some((4, 4)));
    assert_eq!(half[12..16], [0, 3, 0, 3]);
}
