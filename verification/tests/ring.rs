use rustvdif::frame::VDIFFrame;
use rustvdif::utils::buffer::VDIFFIFO;
use rustvdif::utils::cursor::{
    checked_cursors, collapse_position, distance, increment, next_head, next_tail,
};
use rustvdif::utils::ring::FrameRing;

fn tagged(tag: u32, words: usize) -> Vec<u32> {
    (0..words as u32).map(|i| tag * 1000 + i).collect()
}

#[test]
fn cursors_range_over_twice_the_capacity() {
    assert_eq!(collapse_position(4, 0), 0);
    assert_eq!(collapse_position(4, 3), 3);
    assert_eq!(collapse_position(4, 4), 0);
    assert_eq!(collapse_position(4, 7), 3);
    assert_eq!(increment(4, 0), 1);
    assert_eq!(increment(4, 6), 7);
    assert_eq!(increment(4, 7), 0);
    assert_eq!(increment(1, 1), 0);
    assert_eq!(distance(4, 0, 0), 0);
    assert_eq!(distance(4, 2, 6), 4);
    assert_eq!(distance(4, 6, 2), 4);
    assert_eq!(distance(4, 7, 0), 1);
    assert_eq!(distance(4, 5, 4), 7);
}

#[test]
fn full_and_empty_are_decided_from_the_cursors() {
    assert_eq!(next_tail(4, 0, 0), Some(0));
    assert_eq!(next_tail(4, 0, 3), Some(3));
    assert_eq!(next_tail(4, 0, 4), None);
    assert_eq!(next_tail(4, 6, 2), None);
    assert_eq!(next_tail(4, 6, 1), Some(1));
    assert_eq!(next_tail(0, 0, 0), None);
    assert_eq!(next_head(0, 0), None);
    assert_eq!(next_head(5, 5), None);
    assert_eq!(next_head(5, 6), Some(5));
    assert_eq!(next_head(7, 3), Some(7));
}

#[test]
fn ring_holds_as_many_frames_as_it_has_slots() {
    for capacity in [1usize, 2, 3, 8] {
        let mut ring = FrameRing::new(capacity, 16);
        assert_eq!(ring.frame_capacity(), capacity);
        assert_eq!(ring.frame_len(), 4);
        assert!(ring.is_empty());
        for tag in 0..capacity {
            assert!(!ring.is_full());
            assert_eq!(ring.try_push_from(&tagged(tag as u32, 4)), None);
            assert_eq!(ring.len(), tag + 1);
        }
        assert!(ring.is_full());
        assert_eq!(ring.try_push_from(&tagged(99, 4)), Some(()));
        assert_eq!(ring.len(), capacity);
        let mut dest = [0u32; 4];
        assert_eq!(ring.try_pop_to(&mut dest), Some(()));
        assert_eq!(dest[..], tagged(0, 4)[..]);
        assert_eq!(ring.try_push_from(&tagged(99, 4)), None);
        assert!(ring.is_full());
    }
}

#[test]
fn ring_is_first_in_first_out() {
    let mut ring = FrameRing::new(8, 32);
    for round in 0..5u32 {
        for tag in 0..7u32 {
            assert_eq!(ring.try_push_from(&tagged(round * 10 + tag, 8)), None);
        }
        for tag in 0..7u32 {
            let mut dest = [0u32; 8];
            assert_eq!(ring.try_pop_to(&mut dest), Some(()));
            assert_eq!(dest[..], tagged(round * 10 + tag, 8)[..]);
        }
        let mut dest = [7u32; 8];
        assert_eq!(ring.try_pop_to(&mut dest), None);
        assert_eq!(dest, [7u32; 8]);
        assert!(ring.is_empty());
    }
}

#[test]
fn ring_takes_and_gives_frames() {
    let mut ring = FrameRing::new(1, 40);
    assert!(ring.try_pop().is_none());
    let mut frame = VDIFFrame::new_empty(40);
    frame.set_frameno(77);
    frame.get_mut_payload()[1] = 5;
    assert!(ring.try_push(frame).is_none());
    let mut second = VDIFFrame::new_empty(40);
    second.set_frameno(78);
    let rejected = ring.try_push(second).unwrap();
    assert_eq!(rejected.get_frameno(), 78);
    let popped = ring.try_pop().unwrap();
    assert_eq!(popped.get_frameno(), 77);
    assert_eq!(popped.get_payload(), &[0, 5]);
    assert!(ring.try_pop().is_none());
}

#[test]
fn ring_without_slots_is_full_and_empty() {
    let mut ring = FrameRing::new(0, 16);
    assert!(ring.is_empty());
    assert!(ring.is_full());
    assert_eq!(ring.try_push_from(&[0; 4]), Some(()));
    assert_eq!(ring.try_pop_to(&mut [0; 4]), None);
}

#[test]
fn shared_buffer_holds_as_many_frames_as_it_has_slots() {
    for capacity in [1usize, 2, 5] {
        let (mut producer, mut consumer) = VDIFFIFO::new(capacity, 16);
        for tag in 0..capacity {
            assert_eq!(producer.try_push_from(&tagged(tag as u32, 4)), None);
        }
        assert_eq!(producer.try_push_from(&tagged(99, 4)), Some(()));
        let mut dest = [0u32; 4];
        assert_eq!(consumer.try_pop_to(&mut dest), Some(()));
        assert_eq!(dest[..], tagged(0, 4)[..]);
        assert_eq!(producer.try_push_from(&tagged(99, 4)), None);
        assert_eq!(producer.try_push_from(&tagged(98, 4)), Some(()));
    }
}

#[test]
fn shared_buffer_is_first_in_first_out() {
    let (mut producer, mut consumer) = VDIFFIFO::new(100, 8032);
    for round in 0..3u32 {
        for tag in 0..50u32 {
            let mut frame = VDIFFrame::new_empty(8032);
            frame.set_frameno(round * 100 + tag);
            frame.get_mut_payload()[1999] = tag;
            assert!(producer.try_push(frame).is_none());
        }
        for tag in 0..50u32 {
            let frame = consumer.try_pop().unwrap();
            assert_eq!(frame.bytesize(), 8032);
            assert_eq!(frame.get_frameno(), round * 100 + tag);
            assert_eq!(frame.get_payload()[1999], tag);
        }
        assert!(consumer.try_pop().is_none());
        let mut dest = vec![3u32; 2008];
        assert_eq!(consumer.try_pop_to(&mut dest), None);
        assert!(dest.iter().all(|word| *word == 3));
    }
}

#[test]
fn shared_buffer_returns_the_frame_that_it_cannot_take() {
    let (mut producer, mut consumer) = VDIFFIFO::new(1, 32);
    let mut first = VDIFFrame::new_empty(32);
    first.set_station(1);
    let mut second = VDIFFrame::new_empty(32);
    second.set_station(2);
    assert!(producer.try_push(first).is_none());
    let rejected = producer.try_push(second).unwrap();
    assert_eq!(rejected.get_station(), 2);
    assert_eq!(consumer.try_pop().unwrap().get_station(), 1);
    assert!(producer.try_push(rejected).is_none());
    assert_eq!(consumer.try_pop().unwrap().get_station(), 2);
}

fn sendable<T: Send>(_: &T) {}

#[test]
fn ends_of_a_shared_buffer_can_move_to_other_threads() {
    let (producer, consumer) = VDIFFIFO::new(2, 32);
    sendable(&producer);
    sendable(&consumer);
}

#[test]
fn numbers_out_of_range_are_no_cursors() {
    assert_eq!(checked_cursors(4, 0, 0), Some((0, 0)));
    assert_eq!(checked_cursors(4, 7, 3), Some((7, 3)));
    assert_eq!(checked_cursors(4, 8, 3), None);
    assert_eq!(checked_cursors(4, 3, 8), None);
    assert_eq!(checked_cursors(4, usize::MAX, 0), None);
    assert_eq!(checked_cursors(0, 0, 0), Some((0, 0)));
    assert_eq!(checked_cursors(0, 1, 0), None);
    assert_eq!(checked_cursors(0, 0, 1), None);
}

#[test]
fn ends_of_a_shared_buffer_decide_from_the_cursors_that_they_read() {
    let (mut producer, mut consumer) = VDIFFIFO::new(2, 16);
    assert_eq!(producer.last_cursors(), None);
    assert_eq!(consumer.last_cursors(), None);
    let mut dest = [0u32; 4];
    assert_eq!(consumer.try_pop_to(&mut dest), None);
    assert_eq!(consumer.last_cursors(), Some((0, 0)));
    assert_eq!(producer.try_push_from(&tagged(1, 4)), None);
    assert_eq!(producer.last_cursors(), Some((0, 0)));
    assert_eq!(producer.try_push_from(&tagged(2, 4)), None);
    assert_eq!(producer.last_cursors(), Some((0, 1)));
    assert_eq!(producer.try_push_from(&tagged(3, 4)), Some(()));
    assert_eq!(producer.last_cursors(), Some((0, 2)));
    assert_eq!(consumer.try_pop_to(&mut dest), Some(()));
    assert_eq!(consumer.last_cursors(), Some((0, 2)));
    assert_eq!(producer.try_push_from(&tagged(3, 4)), None);
    assert_eq!(producer.last_cursors(), Some((1, 2)));
    assert_eq!(producer.try_push_from(&tagged(4, 4)), Some(()));
    assert_eq!(producer.last_cursors(), Some((1, 3)));
    for tag in [2u32, 3] {
        assert_eq!(consumer.try_pop_to(&mut dest), Some(()));
        assert_eq!(dest[..], tagged(tag, 4)[..]);
    }
    assert_eq!(consumer.last_cursors(), Some((2, 3)));
    assert_eq!(consumer.try_pop_to(&mut dest), None);
    assert_eq!(consumer.last_cursors(), Some((3, 3)));
    assert_eq!(producer.try_push_from(&tagged(5, 4)), None);
    assert_eq!(producer.last_cursors(), Some((3, 3)));
    assert_eq!(producer.try_push_from(&tagged(6, 4)), None);
    assert_eq!(producer.last_cursors(), Some((3, 0)));
    assert_eq!(producer.try_push_from(&tagged(7, 4)), Some(()));
    assert_eq!(producer.last_cursors(), Some((3, 1)));
}

#[test]
fn shared_buffer_without_slots_is_full_and_empty() {
    let (mut producer, mut consumer) = VDIFFIFO::new(0, 16);
    assert_eq!(producer.try_push_from(&[0; 4]), Some(()));
    assert!(producer.try_push(VDIFFrame::new_empty(16)).is_some());
    assert_eq!(consumer.try_pop_to(&mut [0; 4]), None);
    assert!(consumer.try_pop().is_none());
    assert_eq!(producer.last_cursors(), Some((0, 0)));
}
