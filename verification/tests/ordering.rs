use rustvdif::frame::VDIFFrame;
use rustvdif::ordering::OrderedSource;

fn frame_numbered(frameno: u32) -> VDIFFrame {
    let mut frame = VDIFFrame::new_empty(32);
    frame.set_frameno(frameno);
    frame
}

#[test]
fn stale_keys_are_dropped() {
    let mut source = OrderedSource::new_vtp();
    assert_eq!(source.expected(), 0);
    assert!(source.next(5, frame_numbered(5)).is_some());
    assert_eq!(source.expected(), 6);
    assert!(source.next(3, frame_numbered(3)).is_none());
    assert_eq!(source.expected(), 4);
    assert!(source.next(6, frame_numbered(6)).is_some());
    assert_eq!(source.expected(), 7);
}

#[test]
fn accepted_frame_is_the_one_that_was_received() {
    let mut source = OrderedSource::new_vtp();
    let mut frame = frame_numbered(1);
    frame.set_station(99);
    let delivered = source.next(0, frame).unwrap();
    assert_eq!(delivered.get_station(), 99);
    assert_eq!(delivered.get_frameno(), 1);
}

#[test]
fn observing_keys_without_frames() {
    let mut source = OrderedSource::new_vtp();
    assert!(source.observe(0));
    assert!(source.observe(1));
    assert!(!source.observe(1));
    assert!(source.observe(2));
    assert!(!source.observe(0));
    assert_eq!(source.expected(), 1);
    assert!(source.observe(1));
    assert!(source.observe(u64::MAX));
    assert_eq!(source.expected(), 0);
    assert!(source.observe(0));
}

#[test]
fn frame_numbers_start_again_after_the_last_frame_of_a_second() {
    let mut source = OrderedSource::new(4);
    for second in 0..3 {
        for frameno in 0..4u32 {
            let delivered = source.next_frame(frame_numbered(frameno));
            assert_eq!(delivered.unwrap().get_frameno(), frameno, "second {}", second);
        }
        assert_eq!(source.expected(), 0);
    }
    assert!(source.next_frame(frame_numbered(2)).is_some());
    assert_eq!(source.expected(), 3);
    assert!(source.next_frame(frame_numbered(1)).is_none());
    assert_eq!(source.expected(), 2);
    assert!(source.next_frame(frame_numbered(3)).is_some());
    assert_eq!(source.expected(), 0);
    assert!(source.next_frame(frame_numbered(9)).is_some());
    assert_eq!(source.expected(), 0);
}
