use rustvdif::frame::VDIFFrame;
use rustvdif::header_encoding::{
    decode_frame_header, decode_header, decode_w0, decode_w1, decode_w2, decode_w3, encode_header,
    encode_w0, encode_w1, encode_w2, encode_w3, HeaderFields,
};

fn example_header() -> HeaderFields {
    HeaderFields {
        is_valid: true,
        is_legacy: false,
        time: 100,
        epoch: 10,
        frameno: 500,
        version: 3,
        channels: 16,
        size: 8032,
        is_real: true,
        bits_per_sample: 4,
        thread: 64,
        station: 50764,
        edv0: 1,
        edv1: 2,
        edv2: 3,
        edv3: 4,
    }
}

#[test]
fn test_header_encoding() {
    let test_header = HeaderFields {
        is_valid: true,
        is_legacy: false,
        time: 40,
        epoch: 2,
        frameno: 1072,
        version: 0,
        channels: 2,
        size: 8032,
        is_real: true,
        bits_per_sample: 4,
        thread: 0,
        station: 124,

        edv0: 0,
        edv1: 0,
        edv2: 0,
        edv3: 0,
    };

    let cpy = test_header;
    assert_eq!(cpy, decode_header(encode_header(test_header)))
}

#[test]
fn encode_header_places_every_field() {
    let words = encode_header(example_header());
    assert_eq!(words[0], 100);
    assert_eq!(words[1], (10 << 24) | 500);
    assert_eq!(words[2], (3 << 29) | (16 << 24) | 8032);
    assert_eq!(words[3], (4 << 26) | (64 << 16) | 50764);
    assert_eq!(&words[4..], &[1, 2, 3, 4]);
}

#[test]
fn encode_header_sets_the_flags() {
    let header = HeaderFields { is_valid: false, is_legacy: true, is_real: false, ..example_header() };
    let words = encode_header(header);
    assert_eq!(words[0], 0x80000000 | 0x40000000 | 100);
    assert_eq!(words[3], 0x80000000 | (4 << 26) | (64 << 16) | 50764);
    assert_eq!(decode_header(words), header);
}

#[test]
fn header_round_trip_on_extreme_fields() {
    let largest = HeaderFields {
        is_valid: false,
        is_legacy: true,
        time: 0x3FFFFFFF,
        epoch: 63,
        frameno: 0xFFFFFF,
        version: 7,
        channels: 31,
        size: 0xFFFFFF,
        is_real: false,
        bits_per_sample: 31,
        thread: 1023,
        station: 0xFFFF,
        edv0: u32::MAX,
        edv1: u32::MAX,
        edv2: u32::MAX,
        edv3: u32::MAX,
    };
    assert_eq!(decode_header(encode_header(largest)), largest);
    let words = encode_header(largest);
    assert_eq!(words[0], 0xFFFFFFFF);
    assert_eq!(words[1], 0x3FFFFFFF);
    assert_eq!(words[2], 0xFFFFFFFF);
    assert_eq!(words[3], 0xFFFFFFFF);
    let smallest = HeaderFields::default();
    assert_eq!(encode_header(smallest), [0; 8]);
    assert_eq!(decode_header([0; 8]), smallest);
}

#[test]
fn encode_header_truncates_fields_that_are_too_large() {
    let header = HeaderFields {
        time: 0x40000005,
        epoch: 64 + 3,
        frameno: 0x1000007,
        version: 8 + 1,
        channels: 32 + 2,
        size: 0x1000009,
        bits_per_sample: 32 + 5,
        thread: 1024 + 6,
        ..HeaderFields::default()
    };
    let decoded = decode_header(encode_header(header));
    assert_eq!(decoded.time, 5);
    assert_eq!(decoded.epoch, 3);
    assert_eq!(decoded.frameno, 7);
    assert_eq!(decoded.version, 1);
    assert_eq!(decoded.channels, 2);
    assert_eq!(decoded.size, 9);
    assert_eq!(decoded.bits_per_sample, 5);
    assert_eq!(decoded.thread, 6);
    assert!(decoded.is_valid && !decoded.is_legacy && decoded.is_real);
}

#[test]
fn decode_header_ignores_the_unassigned_bits() {
    let mut words = encode_header(example_header());
    words[1] |= 0xC0000000;
    assert_eq!(decode_header(words), example_header());
}

#[test]
fn words_are_encoded_and_decoded_one_by_one() {
    assert_eq!(encode_w0(false, true, 7), 0xC0000007);
    assert_eq!(encode_w0(true, false, u32::MAX), 0x3FFFFFFF);
    assert_eq!(encode_w1(0xFF, 0xFFFFFFFF), 0x3FFFFFFF);
    assert_eq!(encode_w2(1, 2, 3), (1 << 29) | (2 << 24) | 3);
    assert_eq!(encode_w3(false, 1, 2, 3), 0x80000000 | (1 << 26) | (2 << 16) | 3);
    assert_eq!(decode_w0(0xC0000007), (false, true, 7));
    assert_eq!(decode_w1((9 << 24) | 11), (9, 11));
    assert_eq!(decode_w2((1 << 29) | (2 << 24) | 3), (1, 2, 3));
    assert_eq!(decode_w3(0x80000000 | (1 << 26) | (2 << 16) | 3), (false, 1, 2, 3));
}

#[test]
fn frame_header_is_decoded_from_the_first_eight_words() {
    let mut words = vec![0u32; 12];
    words[..8].copy_from_slice(&encode_header(example_header()));
    words[8] = 0xDEADBEEF;
    let frame = VDIFFrame::from_slice(&words);
    assert_eq!(decode_frame_header(&frame), example_header());
}
