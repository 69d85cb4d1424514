use rustvdif::header::VDIFHeader;
use rustvdif::header_encoding::{decode_header, HeaderFields};

#[test]
fn header_is_built_field_by_field() {
    let my_header = VDIFHeader::new().time(1234).ref_epoch(6).size8(1004);
    assert_eq!(my_header.as_slice()[0] & 0x3FFFFFFF, 1234);
    assert_eq!(my_header.get_time(), 1234);
    assert_eq!(my_header.get_ref_epoch(), 6);
    assert_eq!(my_header.get_size8(), 1004);
    assert_eq!(my_header.as_slice(), &[1234, 6 << 24, 1004, 0, 0, 0, 0, 0]);
}

#[test]
fn every_field_of_a_header_can_be_set_and_read() {
    let header = VDIFHeader::new()
        .valid(false)
        .legacy(true)
        .time(40)
        .ref_epoch(30)
        .frameno(1072)
        .version(1)
        .log2channels(2)
        .size8(1004)
        .real_samples(false)
        .bits_per_sample_1(3)
        .thread(5)
        .station(1234);
    assert!(!header.get_valid());
    assert!(header.get_legacy());
    assert_eq!(header.get_time(), 40);
    assert_eq!(header.get_ref_epoch(), 30);
    assert_eq!(header.get_frameno(), 1072);
    assert_eq!(header.get_version(), 1);
    assert_eq!(header.get_log2channels(), 2);
    assert_eq!(header.get_size8(), 1004);
    assert!(!header.get_real());
    assert_eq!(header.get_bits_per_sample_1(), 3);
    assert_eq!(header.get_thread(), 5);
    assert_eq!(header.get_station(), 1234);
    let fields = decode_header(*header.as_slice());
    assert_eq!(
        fields,
        HeaderFields {
            is_valid: false,
            is_legacy: true,
            time: 40,
            epoch: 30,
            frameno: 1072,
            version: 1,
            channels: 2,
            size: 1004,
            is_real: false,
            bits_per_sample: 3,
            thread: 5,
            station: 1234,
            edv0: 0,
            edv1: 0,
            edv2: 0,
            edv3: 0,
        }
    );
}

#[test]
fn flags_of_a_header_can_be_cleared_again() {
    let header = VDIFHeader::new_invalid();
    assert!(!header.get_valid());
    assert_eq!(header.as_slice()[0], 0x80000000);
    let header = header.valid(true).legacy(true).legacy(false).real_samples(false).real_samples(true);
    assert_eq!(header, VDIFHeader::new());
    assert_eq!(VDIFHeader::default(), VDIFHeader::new());
}

#[test]
fn setting_a_number_twice_leaves_the_union() {
    let header = VDIFHeader::new().time(5).time(2);
    assert_eq!(header.get_time(), 7);
    let header = VDIFHeader::new().thread(0xFFFF);
    assert_eq!(header.get_thread(), 1023);
    assert_eq!(header.as_slice()[3], 0x03FF0000);
}

#[test]
fn header_from_words_and_from_bytes() {
    let words = [1, 2, 3, 4, 5, 6, 7, 0x04030201];
    let header = VDIFHeader::from_slice(words);
    assert_eq!(header.as_slice(), &words);
    let mut bytes = [0u8; 32];
    for (i, word) in words.iter().enumerate() {
        bytes[4 * i..4 * i + 4].copy_from_slice(&word.to_le_bytes());
    }
    assert_eq!(VDIFHeader::from_bytes(bytes), header);
    assert_eq!(bytes[28..], [1, 2, 3, 4]);
}

#[test]
fn words_of_a_header_can_be_written() {
    let mut header = VDIFHeader::new();
    header.as_mut_slice()[4] = 77;
    header.as_mut_slice()[1] = 9;
    assert_eq!(header.as_slice(), &[0, 9, 0, 0, 77, 0, 0, 0]);
    assert_eq!(header.get_frameno(), 9);
}
