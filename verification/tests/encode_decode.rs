use rustvdif::decoding::payload::{
    decode_11bit, decode_12bit, decode_13bit, decode_14bit, decode_15bit, decode_16bit,
    decode_17bit, decode_18bit, decode_19bit, decode_1bit, decode_20bit, decode_21bit,
    decode_22bit, decode_23bit, decode_24bit, decode_25bit, decode_26bit, decode_27bit,
    decode_28bit, decode_29bit, decode_2bit, decode_30bit, decode_31bit, decode_32bit,
    decode_3bit, decode_4bit, decode_6bit, decode_7bit, decode_8bit,
};
use rustvdif::encoding::payload::{
    encode_11bit, encode_12bit, encode_13bit, encode_14bit, encode_15bit, encode_16bit,
    encode_17bit, encode_18bit, encode_19bit, encode_1bit, encode_20bit, encode_21bit,
    encode_22bit, encode_23bit, encode_24bit, encode_25bit, encode_26bit, encode_27bit,
    encode_28bit, encode_29bit, encode_2bit, encode_30bit, encode_31bit, encode_32bit,
    encode_3bit, encode_4bit, encode_6bit, encode_7bit, encode_8bit,
};
use rustvdif::VDIFFrame;

#[test]
fn test_encode_is_valid() {
    let mut test_frame = VDIFFrame::new_empty(1032);
    test_frame.set_valid(true);
    assert!(test_frame.get_valid())
}

#[test]
fn test_encode_is_legacy() {
    let mut test_frame = VDIFFrame::new_empty(1032);
    test_frame.set_legacy(false);
    assert!(!test_frame.get_legacy())
}

#[test]
fn test_encode_time() {
    let mut test_frame = VDIFFrame::new_empty(1032);
    test_frame.set_time(12345);
    assert_eq!(12345, test_frame.get_time())
}

#[test]
fn test_encode_ref_epoch() {
    let mut test_frame = VDIFFrame::new_empty(1032);
    test_frame.set_ref_epoch(2);
    assert_eq!(2, test_frame.get_ref_epoch())
}

#[test]
fn test_encode_frameno() {
    let mut test_frame = VDIFFrame::new_empty(1032);
    test_frame.set_frameno(4001);
    assert_eq!(4001, test_frame.get_frameno())
}

#[test]
fn test_encode_version() {
    let mut test_frame = VDIFFrame::new_empty(1032);
    test_frame.set_version(2);
    assert_eq!(2, test_frame.get_version())
}

#[test]
fn test_encode_log2channels() {
    let mut test_frame = VDIFFrame::new_empty(1032);
    test_frame.set_log2channels(3);
    assert_eq!(3, test_frame.get_log2channels())
}

#[test]
fn test_encode_size8() {
    let mut test_frame = VDIFFrame::new_empty(1032);
    test_frame.set_size8(1032 / 8);
    assert_eq!(1032 / 8, test_frame.get_size8())
}

#[test]
fn test_encode_is_real() {
    let mut test_frame = VDIFFrame::new_empty(1032);
    test_frame.set_real(true);
    assert!(test_frame.get_real())
}

#[test]
fn test_encode_bits_per_sample_1() {
    let mut test_frame = VDIFFrame::new_empty(1032);
    test_frame.set_bits_per_sample_1(8);
    assert_eq!(8, test_frame.get_bits_per_sample_1())
}

#[test]
fn test_encode_threadid() {
    let mut test_frame = VDIFFrame::new_empty(1032);
    test_frame.set_thread(5);
    assert_eq!(5, test_frame.get_thread())
}

#[test]
fn test_encode_stationid() {
    let mut test_frame = VDIFFrame::new_empty(1032);
    test_frame.set_station(42);
    assert_eq!(42, test_frame.get_station())
}

const TEST_DATA_WORD: u32 = u32::MAX;

#[test]
fn test_encode_1bit_data() {
    assert_eq!(u32::MAX, encode_1bit(&decode_1bit(&TEST_DATA_WORD)))
}

#[test]
fn test_encode_2bit_data() {
    assert_eq!(u32::MAX, encode_2bit(&decode_2bit(&TEST_DATA_WORD)))
}

#[test]
fn test_encode_3bit_data() {
    assert_eq!(0x3FFFFFFF, encode_3bit(&decode_3bit(&TEST_DATA_WORD)))
}

#[test]
fn test_encode_4bit_data() {
    assert_eq!(u32::MAX, encode_4bit(&decode_4bit(&TEST_DATA_WORD)))
}

#[test]
fn test_encode_6bit_data() {
    assert_eq!(0x3FFFFFFF, encode_6bit(&decode_6bit(&TEST_DATA_WORD)))
}

#[test]
fn test_encode_7bit_data() {
    assert_eq!(0x0FFFFFFF, encode_7bit(&decode_7bit(&TEST_DATA_WORD)))
}

#[test]
fn test_encode_8bit_data() {
    assert_eq!(u32::MAX, encode_8bit(&decode_8bit(&TEST_DATA_WORD)))
}

#[test]
fn test_encode_11bit_data() {
    assert_eq!(0x003FFFFF, encode_11bit(&decode_11bit(&TEST_DATA_WORD)))
}

#[test]
fn test_encode_12bit_data() {
    assert_eq!(0x00FFFFFF, encode_12bit(&decode_12bit(&TEST_DATA_WORD)))
}

#[test]
fn test_encode_13bit_data() {
    assert_eq!(0x03FFFFFF, encode_13bit(&decode_13bit(&TEST_DATA_WORD)))
}

#[test]
fn test_encode_14bit_data() {
    assert_eq!(0x0FFFFFFF, encode_14bit(&decode_14bit(&TEST_DATA_WORD)))
}

#[test]
fn test_encode_15bit_data() {
    assert_eq!(0x3FFFFFFF, encode_15bit(&decode_15bit(&TEST_DATA_WORD)))
}

#[test]
fn test_encode_16bit_data() {
    assert_eq!(u32::MAX, encode_16bit(&decode_16bit(&TEST_DATA_WORD)))
}

#[test]
fn test_encode_17bit_data() {
    assert_eq!(0x0001FFFF, encode_17bit(&decode_17bit(&TEST_DATA_WORD)))
}

#[test]
fn test_encode_18bit_data() {
    assert_eq!(0x0003FFFF, encode_18bit(&decode_18bit(&TEST_DATA_WORD)))
}

#[test]
fn test_encode_19bit_data() {
    assert_eq!(0x0007FFFF, encode_19bit(&decode_19bit(&TEST_DATA_WORD)))
}

#[test]
fn test_encode_20bit_data() {
    assert_eq!(0x000FFFFF, encode_20bit(&decode_20bit(&TEST_DATA_WORD)))
}

#[test]
fn test_encode_21bit_data() {
    assert_eq!(0x001FFFFF, encode_21bit(&decode_21bit(&TEST_DATA_WORD)))
}

#[test]
fn test_encode_22bit_data() {
    assert_eq!(0x003FFFFF, encode_22bit(&decode_22bit(&TEST_DATA_WORD)))
}

#[test]
fn test_encode_23bit_data() {
    assert_eq!(0x007FFFFF, encode_23bit(&decode_23bit(&TEST_DATA_WORD)))
}

#[test]
fn test_encode_24bit_data() {
    assert_eq!(0x00FFFFFF, encode_24bit(&decode_24bit(&TEST_DATA_WORD)))
}

#[test]
fn test_encode_25bit_data() {
    assert_eq!(0x01FFFFFF, encode_25bit(&decode_25bit(&TEST_DATA_WORD)))
}

#[test]
fn test_encode_26bit_data() {
    assert_eq!(0x03FFFFFF, encode_26bit(&decode_26bit(&TEST_DATA_WORD)))
}

#[test]
fn test_encode_27bit_data() {
    assert_eq!(0x07FFFFFF, encode_27bit(&decode_27bit(&TEST_DATA_WORD)))
}

#[test]
fn test_encode_28bit_data() {
    assert_eq!(0x0FFFFFFF, encode_28bit(&decode_28bit(&TEST_DATA_WORD)))
}

#[test]
fn test_encode_29bit_data() {
    assert_eq!(0x1FFFFFFF, encode_29bit(&decode_29bit(&TEST_DATA_WORD)))
}

#[test]
fn test_encode_30bit_data() {
    assert_eq!(0x3FFFFFFF, encode_30bit(&decode_30bit(&TEST_DATA_WORD)))
}

#[test]
fn test_encode_31bit_data() {
    assert_eq!(0x7FFFFFFF, encode_31bit(&decode_31bit(&TEST_DATA_WORD)))
}

#[test]
fn test_encode_32bit_data() {
    assert_eq!(0xFFFFFFFF, encode_32bit(&decode_32bit(&TEST_DATA_WORD)))
}
