use rustvdif::data_encoding::{
    decode_1bit_complex, decode_1bit_real, decode_2bit_complex, decode_2bit_real,
    decode_3bit_complex, decode_3bit_real, decode_4bit_complex, decode_4bit_real,
    decode_6bit_complex, decode_6bit_real, decode_7bit_complex, decode_7bit_real,
    decode_8bit_complex, decode_8bit_real, decode_11bit_complex, decode_11bit_real,
    decode_12bit_complex, decode_12bit_real, decode_13bit_complex, decode_13bit_real,
    decode_14bit_complex, decode_14bit_real, decode_15bit_complex, decode_15bit_real,
    decode_16bit_complex, decode_16bit_real,
};

#[test]
fn encoding_test_decode_1bit_real() {
    let test_in: u32 = 0b01010101010101010101010101010101;
    let result: [u8; 32] = [
        1, 0, 1, 0, 1, 0, 1, 0, 1, 0, 1, 0, 1, 0, 1, 0, 1, 0, 1, 0, 1, 0, 1, 0, 1, 0, 1, 0, 1,
        0, 1, 0,
    ];
    assert_eq!(decode_1bit_real(&test_in), result)
}

#[test]
fn encoding_test_decode_1bit_complex() {
    let test_in: u32 = 0b01010101010101010101010101010101;
    let result: ([u8; 16], [u8; 16]) = (
        [1, 1, 1, 1, 1, 1, 1, 1, 1, 1, 1, 1, 1, 1, 1, 1],
        [0, 0, 0, 0, 0, 0, 0, 0, 0, 0, 0, 0, 0, 0, 0, 0],
    );
    assert_eq!(decode_1bit_complex(&test_in), result)
}

#[test]
fn encoding_test_decode_2bit_real() {
    let test_in: u32 = 0b01010101010101010101010101010101;
    let result: [u8; 16] = [1, 1, 1, 1, 1, 1, 1, 1, 1, 1, 1, 1, 1, 1, 1, 1];
    assert_eq!(decode_2bit_real(&test_in), result)
}

#[test]
fn encoding_test_decode_2bit_complex() {
    let test_in: u32 = 0b01010101010101010101010101010101;
    let result: ([u8; 8], [u8; 8]) = ([1, 1, 1, 1, 1, 1, 1, 1], [1, 1, 1, 1, 1, 1, 1, 1]);
    assert_eq!(decode_2bit_complex(&test_in), result)
}

#[test]
fn encoding_test_decode_3bit_real() {
    let test_in: u32 = 0b01010101010101010101010101010101;
    let result: [u8; 10] = [5, 2, 5, 2, 5, 2, 5, 2, 5, 2];
    assert_eq!(decode_3bit_real(&test_in), result)
}

#[test]
fn encoding_test_decode_3bit_complex() {
    let test_in: u32 = 0b01010101010101010101010101010101;
    let result: ([u8; 5], [u8; 5]) = ([5, 5, 5, 5, 5], [2, 2, 2, 2, 2]);
    assert_eq!(decode_3bit_complex(&test_in), result)
}

#[test]
fn encoding_test_decode_4bit_real() {
    let test_in: u32 = 0b01010101010101010101010101010101;
    let result: [u8; 8] = [5, 5, 5, 5, 5, 5, 5, 5];
    assert_eq!(decode_4bit_real(&test_in), result)
}

#[test]
fn encoding_test_decode_4bit_complex() {
    let test_in: u32 = 0b01010101010101010101010101010101;
    let result: ([u8; 4], [u8; 4]) = ([5, 5, 5, 5], [5, 5, 5, 5]);
    assert_eq!(decode_4bit_complex(&test_in), result)
}

#[test]
fn encoding_test_decode_6bit_real() {
    let test_in: u32 = 0b01010101010101010101010101010101;
    let result: [u8; 5] = [21, 21, 21, 21, 21];
    assert_eq!(decode_6bit_real(&test_in), result)
}

#[test]
fn encoding_test_decode_6bit_complex() {
    let test_in: u32 = 0b01010101010101010101010101010101;
    let result: ([u8; 2], [u8; 2]) = ([21, 21], [21, 21]);
    assert_eq!(decode_6bit_complex(&test_in), result)
}

#[test]
fn encoding_test_decode_7bit_real() {
    let test_in: u32 = 0b01010101010101010101010101010101;
    let result: [u8; 4] = [85, 42, 85, 42];
    assert_eq!(decode_7bit_real(&test_in), result)
}

#[test]
fn encoding_test_decode_7bit_complex() {
    let test_in: u32 = 0b01010101010101010101010101010101;
    let result: ([u8; 2], [u8; 2]) = ([85, 85], [42, 42]);
    assert_eq!(decode_7bit_complex(&test_in), result)
}

#[test]
fn encoding_test_decode_8bit_real() {
    let test_in: u32 = 0b01010101010101010101010101010101;
    let result: [u8; 4] = [85, 85, 85, 85];
    assert_eq!(decode_8bit_real(&test_in), result)
}

#[test]
fn encoding_test_decode_8bit_complex() {
    let test_in: u32 = 0b01010101010101010101010101010101;
    let result: ([u8; 2], [u8; 2]) = ([85, 85], [85, 85]);
    assert_eq!(decode_8bit_complex(&test_in), result)
}

#[test]
fn encoding_test_decode_11bit_real() {
    let test_in: u32 = 0b01010101010101010101010101010101;
    let result: [u16; 2] = [0b10101010101, 0b01010101010];
    assert_eq!(decode_11bit_real(&test_in), result)
}

#[test]
fn encoding_test_decode_11bit_complex() {
    let test_in: u32 = 0b01010101010101010101010101010101;
    let result: (u16, u16) = (0b10101010101, 0b01010101010);
    assert_eq!(decode_11bit_complex(&test_in), result)
}

#[test]
fn encoding_test_decode_12bit_real() {
    let test_in: u32 = 0b01010101010101010101010101010101;
    let result: [u16; 2] = [0b010101010101, 0b010101010101];
    assert_eq!(decode_12bit_real(&test_in), result)
}

#[test]
fn encoding_test_decode_12bit_complex() {
    let test_in: u32 = 0b01010101010101010101010101010101;
    let result: (u16, u16) = (0b010101010101, 0b010101010101);
    assert_eq!(decode_12bit_complex(&test_in), result)
}

#[test]
fn encoding_test_decode_13bit_real() {
    let test_in: u32 = 0b01010101010101010101010101010101;
    let result: [u16; 2] = [0b1010101010101, 0b0101010101010];
    assert_eq!(decode_13bit_real(&test_in), result)
}

#[test]
fn encoding_test_decode_13bit_complex() {
    let test_in: u32 = 0b01010101010101010101010101010101;
    let result: (u16, u16) = (0b1010101010101, 0b0101010101010);
    assert_eq!(decode_13bit_complex(&test_in), result)
}

#[test]
fn encoding_test_decode_14bit_real() {
    let test_in: u32 = 0b01010101010101010101010101010101;
    let result: [u16; 2] = [0b01010101010101, 0b01010101010101];
    assert_eq!(decode_14bit_real(&test_in), result)
}

#[test]
fn encoding_test_decode_14bit_complex() {
    let test_in: u32 = 0b01010101010101010101010101010101;
    let result: (u16, u16) = (0b01010101010101, 0b01010101010101);
    assert_eq!(decode_14bit_complex(&test_in), result)
}

#[test]
fn encoding_test_decode_15bit_real() {
    let test_in: u32 = 0b01010101010101010101010101010101;
    let result: [u16; 2] = [0b101010101010101, 0b010101010101010];
    assert_eq!(decode_15bit_real(&test_in), result)
}

#[test]
fn encoding_test_decode_15bit_complex() {
    let test_in: u32 = 0b01010101010101010101010101010101;
    let result: (u16, u16) = (0b101010101010101, 0b010101010101010);
    assert_eq!(decode_15bit_complex(&test_in), result)
}

#[test]
fn encoding_test_decode_16bit_real() {
    let test_in: u32 = 0b01010101010101010101010101010101;
    let result: [u16; 2] = [0b0101010101010101, 0b0101010101010101];
    assert_eq!(decode_16bit_real(&test_in), result)
}

#[test]
fn encoding_test_decode_16bit_complex() {
    let test_in: u32 = 0b01010101010101010101010101010101;
    let result: (u16, u16) = (0b0101010101010101, 0b0101010101010101);
    assert_eq!(decode_16bit_complex(&test_in), result)
}
