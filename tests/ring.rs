use dominacao::ring::{RingBuffer, AUDIO_RING_CAPACITY};

#[test]
fn read_on_empty_is_all_silence() {
    let mut r = RingBuffer::new(16);
    let out = r.read(10);
    assert_eq!(out, vec![0u8; 10]);
    assert!(r.is_empty());
}

#[test]
fn read_pads_short_data_with_silence() {
    let mut r = RingBuffer::new(16);
    assert_eq!(r.write(&[1, 2, 3]), 3);
    assert_eq!(r.read(5), vec![1, 2, 3, 0, 0]);
    assert_eq!(r.len(), 0);
}

#[test]
fn read_keeps_the_rest_in_order() {
    let mut r = RingBuffer::new(8);
    r.write(&[1, 2, 3, 4, 5]);
    assert_eq!(r.read(2), vec![1, 2]);
    assert_eq!(r.len(), 3);
    assert_eq!(r.read(3), vec![3, 4, 5]);
}

#[test]
fn write_stops_at_capacity() {
    let mut r = RingBuffer::new(4);
    assert_eq!(r.write(&[9, 8, 7, 6, 5, 4]), 4);
    assert_eq!(r.free_space(), 0);
    assert_eq!(r.write(&[1]), 0);
    assert_eq!(r.read(4), vec![9, 8, 7, 6]);
}

#[test]
fn wraps_around_the_end() {
    let mut r = RingBuffer::new(4);
    r.write(&[1, 2, 3]);
    assert_eq!(r.read(2), vec![1, 2]);
    assert_eq!(r.write(&[4, 5, 6]), 3);
    assert_eq!(r.len(), 4);
    assert_eq!(r.read(6), vec![3, 4, 5, 6, 0, 0]);
}

#[test]
fn flush_discards_everything() {
    let mut r = RingBuffer::new(8);
    r.write(&[1, 2, 3]);
    r.flush();
    assert!(r.is_empty());
    assert_eq!(r.free_space(), 8);
    assert_eq!(r.read(2), vec![0, 0]);
}

#[test]
fn zero_capacity_holds_nothing() {
    let mut r = RingBuffer::new(0);
    assert_eq!(r.capacity(), 0);
    assert_eq!(r.write(&[1, 2]), 0);
    assert_eq!(r.read(3), vec![0, 0, 0]);
}

#[test]
fn audio_ring_has_sixty_four_kib() {
    let r = RingBuffer::new(AUDIO_RING_CAPACITY);
    assert_eq!(r.capacity(), 65536);
}
