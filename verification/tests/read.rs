use rustvdif::error::DataError;
use rustvdif::header::VDIFHeader;
use rustvdif::header_encoding::HeaderFields;
use rustvdif::read::VDIFReader;
use rustvdif::{read_frame, read_vtp_frame, write_frame, write_vtp_frame, VDIFFrame};

fn frame(size8: u32, tag: u32) -> VDIFFrame {
    let mut frame = VDIFFrame::from_header(VDIFHeader::new().size8(size8).frameno(tag));
    for (i, word) in frame.get_mut_payload().iter_mut().enumerate() {
        *word = tag * 100 + i as u32;
    }
    frame
}

fn stream(sizes: &[u32]) -> Vec<u8> {
    let mut bytes = Vec::new();
    for (tag, size8) in sizes.iter().enumerate() {
        bytes.extend(frame(*size8, tag as u32).as_bytes());
    }
    bytes
}

#[test]
fn reader_reads_header_then_payload() {
    let mut reader = VDIFReader::new(stream(&[6, 4]));
    assert_eq!(reader.remaining(), 80);
    let header = reader.get_header().unwrap();
    assert_eq!(header, HeaderFields { size: 6, ..HeaderFields::default() });
    assert_eq!(reader.remaining(), 48);
    let payload = reader.get_payload(&header).unwrap();
    assert_eq!(payload.get_ref(), &[0, 1, 2, 3]);
    assert_eq!(reader.remaining(), 32);
    let (header, payload) = reader.get_frame_unpacked().unwrap();
    assert_eq!(header, HeaderFields { size: 4, frameno: 1, ..HeaderFields::default() });
    assert_eq!(payload.wordsize(), 0);
    assert_eq!(reader.remaining(), 0);
    assert_eq!(reader.get_header().unwrap_err(), DataError::Truncated);
}

#[test]
fn reader_reads_frame_after_frame() {
    let mut reader = VDIFReader::new(stream(&[6, 4, 9]));
    for (tag, size8) in [6u32, 4, 9].iter().enumerate() {
        let got = reader.get_frame().unwrap();
        assert_eq!(got.as_slice(), frame(*size8, tag as u32).as_slice());
    }
    assert_eq!(reader.get_frame().unwrap_err(), DataError::Truncated);
    assert_eq!(reader.remaining(), 0);
}

#[test]
fn reader_stays_where_it_is_when_it_fails() {
    let mut bytes = stream(&[6]);
    bytes.truncate(40);
    let mut reader = VDIFReader::new(bytes);
    assert_eq!(reader.get_frame().unwrap_err(), DataError::Truncated);
    assert_eq!(reader.get_frame_unpacked().unwrap_err(), DataError::Truncated);
    assert_eq!(reader.nextframe().unwrap_err(), DataError::Truncated);
    assert_eq!(reader.get_sized_frame(48).unwrap_err(), DataError::Truncated);
    assert_eq!(reader.get_bytes(41).unwrap_err(), DataError::Truncated);
    assert_eq!(reader.remaining(), 40);
    let header = reader.get_header().unwrap();
    assert_eq!(reader.get_payload(&header).unwrap_err(), DataError::Truncated);
    assert_eq!(reader.remaining(), 8);
    let small = HeaderFields { size: 3, ..HeaderFields::default() };
    assert_eq!(reader.get_payload(&small).unwrap_err(), DataError::FrameTooSmall);
    assert_eq!(reader.get_sequence_number().unwrap(), 0x0000_0001_0000_0000);
    assert_eq!(reader.get_sequence_number().unwrap_err(), DataError::Truncated);
    let mut reader = VDIFReader::new(vec![0u8; 64]);
    assert_eq!(reader.get_frame().unwrap_err(), DataError::FrameTooSmall);
    assert_eq!(reader.get_sized_frame(64).unwrap_err(), DataError::FrameTooSmall);
    assert_eq!(reader.remaining(), 64);
}

#[test]
fn reader_reads_frames_of_a_known_size() {
    let mut reader = VDIFReader::new(stream(&[5, 5, 5]));
    for tag in 0..3 {
        assert_eq!(reader.get_sized_frame(40).unwrap().as_slice(), frame(5, tag).as_slice());
    }
    assert_eq!(reader.get_sized_frame(40).unwrap_err(), DataError::Truncated);
    let mut reader = VDIFReader::new(stream(&[4, 4]));
    let first = reader.get_sized_frame(64).unwrap();
    assert_eq!(first.as_slice(), frame(4, 0).as_slice());
    assert_eq!(reader.remaining(), 0);
}

#[test]
fn reader_skips_frames_and_reads_all_that_are_left() {
    let mut bytes = stream(&[4, 7, 5, 6]);
    bytes.extend([1, 2, 3]);
    let mut reader = VDIFReader::new(bytes);
    reader.nextframe().unwrap();
    assert_eq!(reader.get_frame().unwrap().get_frameno(), 1);
    let frames = reader.get_all_frames();
    assert_eq!(frames.len(), 2);
    assert_eq!(frames[0].as_slice(), frame(5, 2).as_slice());
    assert_eq!(frames[1].as_slice(), frame(6, 3).as_slice());
    assert_eq!(reader.remaining(), 3);
    assert_eq!(reader.get_bytes(3).unwrap(), vec![1, 2, 3]);
    assert!(reader.get_all_frames().is_empty());
}

#[test]
fn frames_are_written_and_read_back() {
    let mut file = Vec::new();
    for _ in 0..10 {
        let mut frame = VDIFFrame::new_empty(1032);
        frame.set_valid(false);
        write_frame(&mut file, frame);
    }
    assert_eq!(file.len(), 10320);
    let mut reader = VDIFReader::new(file);
    for _ in 0..10 {
        let frame = read_frame(&mut reader, 1032).unwrap();
        assert!(!frame.get_valid());
        assert_eq!(frame.bytesize(), 1032);
    }
    assert_eq!(read_frame(&mut reader, 1032).unwrap_err(), DataError::Truncated);
    assert!(read_frame(&mut reader, 0).unwrap().is_empty());
}

#[test]
fn frames_are_written_and_read_back_with_sequence_numbers() {
    let mut file = vec![0xEE];
    write_vtp_frame(&mut file, 0x0102030405060708, frame(5, 1));
    write_vtp_frame(&mut file, u64::MAX, frame(5, 2));
    assert_eq!(file.len(), 1 + 2 * 48);
    assert_eq!(file[..9], [0xEE, 8, 7, 6, 5, 4, 3, 2, 1]);
    assert_eq!(file[9..49], frame(5, 1).as_bytes()[..]);
    let mut reader = VDIFReader::new(file[1..].to_vec());
    let (seq, got) = read_vtp_frame(&mut reader, 40).unwrap();
    assert_eq!(seq, 0x0102030405060708);
    assert_eq!(got.as_slice(), frame(5, 1).as_slice());
    assert_eq!(read_vtp_frame(&mut reader, 48).unwrap_err(), DataError::Truncated);
    assert_eq!(reader.remaining(), 48);
    let (seq, got) = read_vtp_frame(&mut reader, 40).unwrap();
    assert_eq!(seq, u64::MAX);
    assert_eq!(got.as_slice(), frame(5, 2).as_slice());
    assert_eq!(read_vtp_frame(&mut reader, 0).unwrap_err(), DataError::Truncated);
}
