use rustvdif::header_encoding::{decode_frame_header, HeaderFields};
use rustvdif::sim::VDIFSim;

fn expected(time: u32, frameno: u32, thread: u16) -> HeaderFields {
    HeaderFields {
        is_valid: true,
        is_legacy: false,
        time,
        epoch: 3,
        frameno,
        version: 0,
        channels: 0,
        size: 1032 / 8,
        is_real: true,
        bits_per_sample: 2,
        thread,
        station: 134,
        edv0: 0,
        edv1: 0,
        edv2: 0,
        edv3: 0,
    }
}

#[test]
fn generated_frames_count_frames_then_threads_then_seconds() {
    let mut sim = VDIFSim::new(1032, 3, 2);
    let mut seen = Vec::new();
    for _ in 0..13 {
        let frame = sim.generate_frame();
        assert_eq!(frame.bytesize(), 1032);
        assert!(frame.get_payload().iter().all(|word| *word == 0));
        let header = decode_frame_header(&frame);
        seen.push((header.time, header.thread, header.frameno));
        assert_eq!(header, expected(header.time, header.frameno, header.thread));
    }
    assert_eq!(
        seen,
        vec![
            (0, 0, 0),
            (0, 0, 1),
            (0, 0, 2),
            (0, 1, 0),
            (0, 1, 1),
            (0, 1, 2),
            (1, 0, 0),
            (1, 0, 1),
            (1, 0, 2),
            (1, 1, 0),
            (1, 1, 1),
            (1, 1, 2),
            (2, 0, 0),
        ]
    );
}

#[test]
fn one_frame_per_second_and_one_thread() {
    let mut sim = VDIFSim::new(32, 1, 1);
    for second in 0..4 {
        let frame = sim.generate_frame();
        assert_eq!(frame.len(), 8);
        assert_eq!(frame.get_time(), second);
        assert_eq!(frame.get_frameno(), 0);
        assert_eq!(frame.get_thread(), 0);
        assert_eq!(frame.get_size8(), 4);
        assert_eq!(frame.get_ref_epoch(), 3);
        assert_eq!(frame.get_station(), 134);
    }
}

#[test]
fn counters_of_the_simulation_can_be_read() {
    let mut sim = VDIFSim::new(64, 2, 3);
    assert_eq!((sim.current_time(), sim.current_thread(), sim.current_frame()), (0, 0, 0));
    for _ in 0..5 {
        sim.generate_frame();
    }
    assert_eq!((sim.current_time(), sim.current_thread(), sim.current_frame()), (0, 2, 1));
    sim.generate_frame();
    assert_eq!((sim.current_time(), sim.current_thread(), sim.current_frame()), (1, 0, 0));
}
