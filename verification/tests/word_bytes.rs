use rustvdif::encoding::encode_header;
use rustvdif::header_encoding::HeaderFields;
use rustvdif::payload::VDIFPayload;
use rustvdif::word_bytes::{
    u64_from_le_bytes, u64_to_le_bytes, word_from_le_bytes, word_to_le_bytes, words_from_bytes,
    words_to_bytes,
};

#[test]
fn words_and_their_bytes() {
    assert_eq!(word_to_le_bytes(0x04030201), [1, 2, 3, 4]);
    assert_eq!(word_from_le_bytes(1, 2, 3, 4), 0x04030201);
    for word in [0, 1, 0x80000000, u32::MAX, 0xDEADBEEF] {
        assert_eq!(word_to_le_bytes(word), word.to_le_bytes());
        let bytes = word.to_le_bytes();
        assert_eq!(word_from_le_bytes(bytes[0], bytes[1], bytes[2], bytes[3]), word);
    }
}

#[test]
fn sequence_numbers_and_their_bytes() {
    assert_eq!(u64_to_le_bytes(0x0807060504030201), [1, 2, 3, 4, 5, 6, 7, 8]);
    assert_eq!(u64_from_le_bytes(&[1, 2, 3, 4, 5, 6, 7, 8, 9]), 0x0807060504030201);
    for value in [0, 1, u64::MAX, 0x8000000000000000, 0x0123456789ABCDEF] {
        assert_eq!(u64_to_le_bytes(value), value.to_le_bytes());
        assert_eq!(u64_from_le_bytes(&value.to_le_bytes()), value);
    }
}

#[test]
fn slices_of_words_and_bytes() {
    assert_eq!(words_to_bytes(&[0x04030201, 0x08070605]), vec![1, 2, 3, 4, 5, 6, 7, 8]);
    assert_eq!(words_from_bytes(&[1, 2, 3, 4, 5, 6, 7, 8]), vec![0x04030201, 0x08070605]);
    assert_eq!(words_from_bytes(&[1, 2, 3, 4, 5, 6, 7]), vec![0x04030201]);
    assert!(words_from_bytes(&[1, 2, 3]).is_empty());
    assert!(words_to_bytes(&[]).is_empty());
}

#[test]
fn payload_sizes_and_bytes() {
    let payload = VDIFPayload::new(vec![0x04030201, 0xFFFFFFFF, 0].into_boxed_slice());
    assert_eq!(payload.wordsize(), 3);
    assert_eq!(payload.bytesize(), 12);
    assert_eq!(payload.get_ref(), &[0x04030201, 0xFFFFFFFF, 0]);
    assert_eq!(payload.clone().encode(), vec![1, 2, 3, 4, 255, 255, 255, 255, 0, 0, 0, 0]);
    assert_eq!(VDIFPayload::from_vec(vec![0x04030201, 0xFFFFFFFF, 0]), payload);
    assert!(VDIFPayload::from_vec(Vec::new()).encode().is_empty());
}

#[test]
fn header_bytes_are_the_words_in_little_endian_order() {
    let header = HeaderFields {
        time: 0x01020304,
        epoch: 1,
        frameno: 2,
        size: 4,
        station: 0x4142,
        edv3: 0xA1B2C3D4,
        ..HeaderFields::default()
    };
    let bytes = encode_header(header);
    assert_eq!(bytes[0..4], [4, 3, 2, 1]);
    assert_eq!(bytes[4..8], [2, 0, 0, 1]);
    assert_eq!(bytes[8..12], [4, 0, 0, 0]);
    assert_eq!(bytes[12..16], [0x42, 0x41, 0, 0]);
    assert_eq!(bytes[16..28], [0; 12]);
    assert_eq!(bytes[28..32], [0xD4, 0xC3, 0xB2, 0xA1]);
}
