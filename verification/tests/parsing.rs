use rustvdif::encoding::encode_header;
use rustvdif::error::DataError;
use rustvdif::frame::VDIFFrame;
use rustvdif::header::VDIFHeader;
use rustvdif::header_encoding::HeaderFields;
use rustvdif::parsing::{parse_all_frames, parse_frame, parse_frames, parse_header, parse_payload};

fn frame_bytes(size8: u32, tag: u32) -> Vec<u8> {
    let mut frame = VDIFFrame::from_header(VDIFHeader::new().size8(size8).frameno(tag));
    for (i, word) in frame.get_mut_payload().iter_mut().enumerate() {
        *word = tag.wrapping_mul(0x01000193) ^ i as u32;
    }
    frame.as_bytes()
}

#[test]
fn test_encode_header() {
    let example_header = HeaderFields {
        is_valid: true,
        is_legacy: false,
        time: 100,
        epoch: 10,
        frameno: 500,
        version: 3,
        channels: 16,
        size: 8032,
        is_real: true,
        bits_per_sample: 4,
        thread: 64,
        station: 50764,
        edv0: 0,
        edv1: 0,
        edv2: 0,
        edv3: 0,
    };

    // Encode and then decode to make sure it's the same.
    let cpy = example_header.clone();
    let encoded = encode_header(cpy);
    let (_, parsed) = parse_header(&encoded).unwrap();

    assert_eq!(example_header, parsed)
}

#[test]
fn header_is_parsed_from_little_endian_words() {
    let mut bytes = vec![0u8; 36];
    bytes[0..4].copy_from_slice(&[0x39, 0x30, 0, 0x80]);
    bytes[4..8].copy_from_slice(&[1, 0, 0, 2]);
    bytes[8..12].copy_from_slice(&[0xEC, 0x03, 0, 0x22]);
    bytes[12..16].copy_from_slice(&[0x34, 0x12, 5, 0x84]);
    bytes[16..20].copy_from_slice(&[1, 2, 3, 4]);
    bytes[32..36].copy_from_slice(&[9, 8, 7, 6]);
    let (rest, header) = parse_header(&bytes).unwrap();
    assert_eq!(rest, &[9, 8, 7, 6]);
    assert_eq!(
        header,
        HeaderFields {
            is_valid: false,
            is_legacy: false,
            time: 12345,
            epoch: 2,
            frameno: 1,
            version: 1,
            channels: 2,
            size: 1004,
            is_real: false,
            bits_per_sample: 1,
            thread: 5,
            station: 0x1234,
            edv0: 0x04030201,
            edv1: 0,
            edv2: 0,
            edv3: 0,
        }
    );
}

#[test]
fn header_needs_thirty_two_bytes() {
    for len in [0usize, 1, 3, 4, 31] {
        assert_eq!(parse_header(&vec![0u8; len]).unwrap_err(), DataError::Truncated);
    }
    let (rest, header) = parse_header(&[0u8; 32]).unwrap();
    assert!(rest.is_empty());
    assert_eq!(header, HeaderFields::default());
}

#[test]
fn payload_is_sized_by_the_header() {
    let header = HeaderFields { size: 6, ..HeaderFields::default() };
    let bytes: Vec<u8> = (1..=20).collect();
    let (rest, payload) = parse_payload(&bytes, &header).unwrap();
    assert_eq!(rest, &[17, 18, 19, 20]);
    assert_eq!(payload.get_ref(), &[0x04030201, 0x08070605, 0x0C0B0A09, 0x100F0E0D]);
    assert_eq!(parse_payload(&bytes[..15], &header).unwrap_err(), DataError::Truncated);
    let (rest, payload) = parse_payload(&bytes[..16], &header).unwrap();
    assert!(rest.is_empty());
    assert_eq!(payload.wordsize(), 4);
}

#[test]
fn payload_of_a_bare_header_is_empty() {
    let header = HeaderFields { size: 4, ..HeaderFields::default() };
    let (rest, payload) = parse_payload(&[1, 2, 3], &header).unwrap();
    assert_eq!(rest, &[1, 2, 3]);
    assert_eq!(payload.wordsize(), 0);
    for size in 0..4 {
        let header = HeaderFields { size, ..HeaderFields::default() };
        assert_eq!(parse_payload(&[0; 64], &header).unwrap_err(), DataError::FrameTooSmall);
    }
}

#[test]
fn frame_is_parsed_with_the_size_that_its_header_declares() {
    let mut bytes = frame_bytes(6, 3);
    bytes.extend([0xAA, 0xBB]);
    let (rest, frame) = parse_frame(&bytes).unwrap();
    assert_eq!(rest, &[0xAA, 0xBB]);
    assert_eq!(frame.bytesize(), 48);
    assert_eq!(frame.as_bytes(), bytes[..48]);
    assert_eq!(frame.get_frameno(), 3);
    assert_eq!(frame.get_size8(), 6);
}

#[test]
fn frame_keeps_the_bits_that_no_field_reads() {
    let mut bytes = frame_bytes(4, 1);
    bytes[7] |= 0xC0;
    let (_, frame) = parse_frame(&bytes).unwrap();
    assert_eq!(frame.as_slice()[1], 0xC0000001);
}

#[test]
fn malformed_frames_are_refused() {
    let bytes = frame_bytes(6, 3);
    assert_eq!(parse_frame(&bytes[..31]).unwrap_err(), DataError::Truncated);
    assert_eq!(parse_frame(&bytes[..32]).unwrap_err(), DataError::Truncated);
    assert_eq!(parse_frame(&bytes[..47]).unwrap_err(), DataError::Truncated);
    assert!(parse_frame(&bytes[..48]).is_ok());
    assert_eq!(parse_frame(&[0u8; 64]).unwrap_err(), DataError::FrameTooSmall);
    let mut small = vec![0u8; 64];
    small[8] = 3;
    assert_eq!(parse_frame(&small).unwrap_err(), DataError::FrameTooSmall);
    small[8] = 4;
    assert_eq!(parse_frame(&small).unwrap().1.len(), 8);
}

#[test]
fn a_number_of_frames_is_parsed() {
    let mut bytes = Vec::new();
    for (tag, size8) in [(0u32, 4u32), (1, 6), (2, 5)] {
        bytes.extend(frame_bytes(size8, tag));
    }
    bytes.extend([1, 2, 3]);
    let (rest, frames) = parse_frames(&bytes, 3).unwrap();
    assert_eq!(rest, &[1, 2, 3]);
    assert_eq!(frames.len(), 3);
    for (tag, frame) in frames.iter().enumerate() {
        assert_eq!(frame.get_frameno(), tag as u32);
        assert_eq!(frame.as_bytes(), frame_bytes([4, 6, 5][tag], tag as u32));
    }
    let (rest, frames) = parse_frames(&bytes, 2).unwrap();
    assert_eq!(rest.len(), 40 + 3);
    assert_eq!(frames.len(), 2);
    let (rest, frames) = parse_frames(&bytes, 0).unwrap();
    assert_eq!(rest.len(), bytes.len());
    assert!(frames.is_empty());
    assert_eq!(parse_frames(&bytes, 4).unwrap_err(), DataError::Truncated);
    let mut broken = frame_bytes(4, 0);
    broken.extend([0u8; 40]);
    assert_eq!(parse_frames(&broken, 2).unwrap_err(), DataError::FrameTooSmall);
}

#[test]
fn all_frames_are_parsed_until_none_is_left() {
    let mut bytes = Vec::new();
    for tag in 0..10u32 {
        bytes.extend(frame_bytes(4 + tag, tag));
    }
    let (rest, frames) = parse_all_frames(&bytes).unwrap();
    assert!(rest.is_empty());
    assert_eq!(frames.len(), 10);
    for (tag, frame) in frames.iter().enumerate() {
        assert_eq!(frame.get_frameno(), tag as u32);
        assert_eq!(frame.len(), 2 * (4 + tag));
    }
    bytes.extend(&frame_bytes(8, 10)[..63]);
    let (rest, frames) = parse_all_frames(&bytes).unwrap();
    assert_eq!(rest.len(), 63);
    assert_eq!(frames.len(), 10);
    let (rest, frames) = parse_all_frames(&[0u8; 100]).unwrap();
    assert_eq!(rest.len(), 100);
    assert!(frames.is_empty());
    let (rest, frames) = parse_all_frames(&[]).unwrap();
    assert!(rest.is_empty() && frames.is_empty());
}
