use grex_nc_dump_test::layout::FRAME_LEN;
use grex_nc_dump_test::{DumpRing, Payload};

/// A frame whose every sample tells `tag` apart from its neighbours.
fn frame(count: u64, tag: u8) -> Payload {
    let mut samples: Vec<i8> = Vec::with_capacity(FRAME_LEN);
    for i in 0..FRAME_LEN {
        samples.push(((i as u64 * 31 + tag as u64 * 17 + 5) % 256) as u8 as i8);
    }
    Payload::new(count, samples).unwrap()
}

fn samples_of(tag: u8) -> Vec<i8> {
    frame(0, tag).data_view().as_slice().to_vec()
}

/// The two regions laid end to end, cut into frames.
fn chronological(ring: &DumpRing) -> Vec<Vec<i8>> {
    let (first, second) = ring.consecutive_views();
    assert_eq!(first.len() % FRAME_LEN, 0);
    assert_eq!(second.len() % FRAME_LEN, 0);
    let mut all: Vec<i8> = first.to_vec();
    all.extend_from_slice(second);
    all.chunks(FRAME_LEN).map(|c| c.to_vec()).collect()
}

fn filled(capacity: usize, start: u64, k: usize) -> DumpRing {
    let mut ring = DumpRing::new(capacity);
    for i in 0..k {
        ring.push(&frame(start + i as u64, i as u8));
    }
    ring
}

#[test]
fn new_ring_is_empty() {
    let ring = DumpRing::new(3);
    assert_eq!(ring.capacity(), 3);
    assert_eq!(ring.len(), 0);
    assert_eq!(ring.write_cursor(), 0);
    assert!(!ring.is_full());
    assert_eq!(ring.oldest(), None);
    let (first, second) = ring.consecutive_views();
    assert!(first.is_empty());
    assert!(second.is_empty());
}

#[test]
fn new_ring_is_zeroed() {
    let ring = DumpRing::new(3);
    for slot in 0..3 {
        let samples = ring.slot_samples(slot);
        assert_eq!(samples.len(), FRAME_LEN);
        assert!(samples.iter().all(|&s| s == 0));
    }
}

#[test]
fn push_writes_only_the_slot_at_the_cursor() {
    let mut ring = DumpRing::new(3);
    ring.push(&frame(7, 1));
    assert_eq!(ring.slot_samples(0), &samples_of(1)[..]);
    assert!(ring.slot_samples(1).iter().all(|&s| s == 0));
    assert!(ring.slot_samples(2).iter().all(|&s| s == 0));
    ring.push(&frame(8, 2));
    assert_eq!(ring.slot_samples(0), &samples_of(1)[..]);
    assert_eq!(ring.slot_samples(1), &samples_of(2)[..]);
    assert!(ring.slot_samples(2).iter().all(|&s| s == 0));
}

#[test]
fn filling_retains_every_frame() {
    for capacity in 1..=5usize {
        for k in 1..=capacity {
            let ring = filled(capacity, 100, k);
            assert_eq!(ring.len(), k);
            assert_eq!(ring.oldest(), Some(100));
            assert_eq!(ring.is_full(), k == capacity);
            assert_eq!(ring.write_cursor(), k % capacity);
            let frames = chronological(&ring);
            assert_eq!(frames.len(), k);
            for (i, f) in frames.iter().enumerate() {
                assert_eq!(f, &samples_of(i as u8));
            }
        }
    }
}

#[test]
fn overflowing_retains_the_newest_frames() {
    for capacity in 1..=4usize {
        for k in (capacity + 1)..=(3 * capacity + 1) {
            let ring = filled(capacity, 40, k);
            assert!(ring.is_full());
            assert_eq!(ring.len(), capacity);
            assert_eq!(ring.oldest(), Some(40 + (k - capacity) as u64));
            assert_eq!(ring.write_cursor(), k % capacity);
            let frames = chronological(&ring);
            assert_eq!(frames.len(), capacity);
            for (i, f) in frames.iter().enumerate() {
                assert_eq!(f, &samples_of((k - capacity + i) as u8));
            }
        }
    }
}

#[test]
fn splitter_is_idempotent() {
    let ring = filled(4, 0, 6);
    let (first, second) = ring.consecutive_views();
    let (first_again, second_again) = ring.consecutive_views();
    assert_eq!(first, first_again);
    assert_eq!(second, second_again);
    assert_eq!(first.as_ptr(), first_again.as_ptr());
    assert_eq!(second.as_ptr(), second_again.as_ptr());
}

#[test]
fn round_trip_keeps_insertion_order() {
    let capacity = 5usize;
    let ring = filled(capacity, 0, capacity);
    assert!(ring.is_full());
    assert_eq!(ring.write_cursor(), 0);
    let (first, second) = ring.consecutive_views();
    assert_eq!(first.len(), capacity * FRAME_LEN);
    assert!(second.is_empty());
    let frames = chronological(&ring);
    for i in 0..capacity {
        assert_eq!(frames[i], samples_of(i as u8));
    }
}

#[test]
fn wrap_after_six_frames_in_four_slots() {
    let ring = filled(4, 0, 6);
    assert_eq!(ring.oldest(), Some(2));
    assert_eq!(ring.write_cursor(), 2);
    assert!(ring.is_full());
    let (first, second) = ring.consecutive_views();
    assert_eq!(first.len(), 2 * FRAME_LEN);
    assert_eq!(second.len(), 2 * FRAME_LEN);
    assert_eq!(&first[..FRAME_LEN], &samples_of(2)[..]);
    assert_eq!(&first[FRAME_LEN..], &samples_of(3)[..]);
    assert_eq!(&second[..FRAME_LEN], &samples_of(4)[..]);
    assert_eq!(&second[FRAME_LEN..], &samples_of(5)[..]);
    let frames = chronological(&ring);
    assert_eq!(frames, vec![samples_of(2), samples_of(3), samples_of(4), samples_of(5)]);
}

#[test]
fn single_slot_ring_is_full_after_one_frame() {
    let mut ring = DumpRing::new(1);
    ring.push(&frame(9, 3));
    assert!(ring.is_full());
    assert_eq!(ring.write_cursor(), 0);
    assert_eq!(ring.oldest(), Some(9));
    assert_eq!(ring.len(), 1);
    let (first, second) = ring.consecutive_views();
    assert_eq!(first, &samples_of(3)[..]);
    assert!(second.is_empty());
}

#[test]
fn single_slot_ring_keeps_the_last_frame() {
    let mut ring = DumpRing::new(1);
    ring.push(&frame(9, 3));
    ring.push(&frame(10, 4));
    ring.push(&frame(11, 5));
    assert!(ring.is_full());
    assert_eq!(ring.oldest(), Some(11));
    let (first, second) = ring.consecutive_views();
    assert_eq!(first, &samples_of(5)[..]);
    assert!(second.is_empty());
}

#[test]
fn partly_filled_ring_has_one_region() {
    let ring = filled(4, 12, 3);
    assert!(!ring.is_full());
    let (first, second) = ring.consecutive_views();
    assert_eq!(first.len(), 3 * FRAME_LEN);
    assert!(second.is_empty());
}

#[test]
fn oldest_advances_by_one_whatever_the_frames_say() {
    let mut ring = DumpRing::new(2);
    ring.push(&frame(10, 0));
    ring.push(&frame(500, 1));
    assert_eq!(ring.oldest(), Some(10));
    ring.push(&frame(3, 2));
    assert_eq!(ring.oldest(), Some(11));
    ring.push(&frame(3, 3));
    assert_eq!(ring.oldest(), Some(12));
}

#[test]
fn random_payloads_fill_a_ring() {
    let mut ring = DumpRing::new(2);
    let a = Payload::random();
    let b = Payload::random();
    let c = Payload::random();
    ring.push(&a);
    ring.push(&b);
    ring.push(&c);
    assert_eq!(ring.oldest(), Some(1));
    let (first, second) = ring.consecutive_views();
    assert_eq!(first, b.data_view().as_slice());
    assert_eq!(second, c.data_view().as_slice());
}
