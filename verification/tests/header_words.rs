use rustvdif::decoding::header::{
    decode_bits_per_sample_1, decode_frameno, decode_is_legacy, decode_is_real, decode_is_valid,
    decode_log2channels, decode_ref_epoch, decode_size8, decode_stationid, decode_threadid,
    decode_time, decode_version,
};
use rustvdif::encoding::header::{
    encode_bits_per_sample_1, encode_frameno, encode_is_legacy, encode_is_real, encode_is_valid,
    encode_log2channels, encode_ref_epoch, encode_size8, encode_stationid, encode_threadid,
    encode_time, encode_version,
};

#[test]
fn fields_are_decoded_from_their_bits() {
    assert!(decode_is_valid(0x7FFFFFFF));
    assert!(!decode_is_valid(0x80000000));
    assert!(decode_is_legacy(0x40000000));
    assert!(!decode_is_legacy(0xBFFFFFFF));
    assert_eq!(decode_time(0xFFFFFFFF), 0x3FFFFFFF);
    assert_eq!(decode_time(0xC0000001), 1);
    assert_eq!(decode_ref_epoch(0xFFFFFFFF), 63);
    assert_eq!(decode_ref_epoch(0x1E000000), 30);
    assert_eq!(decode_frameno(0xFF000430), 1072);
    assert_eq!(decode_version(0xE0000000), 7);
    assert_eq!(decode_version(0x1FFFFFFF), 0);
    assert_eq!(decode_log2channels(0x1F000000), 31);
    assert_eq!(decode_log2channels(0xE2FFFFFF), 2);
    assert_eq!(decode_size8(0xFF0003EC), 1004);
    assert!(decode_is_real(0x7FFFFFFF));
    assert!(!decode_is_real(0x80000000));
    assert_eq!(decode_bits_per_sample_1(0x7C000000), 31);
    assert_eq!(decode_bits_per_sample_1(0x8C000000), 3);
    assert_eq!(decode_threadid(0x03FF0000), 1023);
    assert_eq!(decode_threadid(0xFC05FFFF), 5);
    assert_eq!(decode_stationid(0xFFFF04D2), 1234);
}

#[test]
fn fields_are_encoded_into_their_bits() {
    let mut word = 0;
    encode_time(&mut word, 12345);
    encode_is_legacy(&mut word, true);
    encode_is_valid(&mut word, false);
    assert_eq!(word, 0xC0000000 | 12345);
    encode_is_legacy(&mut word, false);
    encode_is_valid(&mut word, true);
    assert_eq!(word, 12345);
    let mut word = 0;
    encode_ref_epoch(&mut word, 30);
    encode_frameno(&mut word, 1072);
    assert_eq!(word, (30 << 24) | 1072);
    let mut word = 0;
    encode_version(&mut word, 5);
    encode_log2channels(&mut word, 3);
    encode_size8(&mut word, 1004);
    assert_eq!(word, (5 << 29) | (3 << 24) | 1004);
    let mut word = 0;
    encode_is_real(&mut word, false);
    encode_bits_per_sample_1(&mut word, 7);
    encode_threadid(&mut word, 9);
    encode_stationid(&mut word, 0xABCD);
    assert_eq!(word, 0x80000000 | (7 << 26) | (9 << 16) | 0xABCD);
    encode_is_real(&mut word, true);
    assert_eq!(word, (7 << 26) | (9 << 16) | 0xABCD);
}

#[test]
fn encoding_cuts_values_and_leaves_other_fields_alone() {
    let mut word = 0x80000000;
    encode_time(&mut word, u32::MAX);
    assert_eq!(word, 0xBFFFFFFF);
    let mut word = 0x00FFFFFF;
    encode_ref_epoch(&mut word, 0xFF);
    assert_eq!(word, 0x3FFFFFFF);
    let mut word = 0;
    encode_version(&mut word, 0xFF);
    assert_eq!(word, 0xE0000000);
    let mut word = 0;
    encode_log2channels(&mut word, 0xFF);
    assert_eq!(word, 0x1F000000);
    let mut word = 0;
    encode_bits_per_sample_1(&mut word, 0xFF);
    assert_eq!(word, 0x7C000000);
    let mut word = 0;
    encode_threadid(&mut word, 0xFFFF);
    assert_eq!(word, 0x03FF0000);
    let mut word = 0;
    encode_size8(&mut word, u32::MAX);
    encode_frameno(&mut word, 0x01000000);
    assert_eq!(word, 0x00FFFFFF);
}
