use rustvdif::data_encoding::{
    decode_3bit_complex, decode_3bit_real, decode_6bit_complex, decode_6bit_real,
    decode_7bit_complex, decode_11bit_complex, decode_16bit_complex, encode_3bit_complex,
    encode_3bit_real, encode_6bit_complex, encode_6bit_real, encode_7bit_complex,
    encode_11bit_complex, encode_16bit_complex,
};
use rustvdif::samples::{
    pack_pairs_u8, pack_u16, pack_u8, sample_mask, unpack_pairs_u8, unpack_u16, unpack_u8,
};

const WORDS: [u32; 6] = [0, u32::MAX, 0x55555555, 0xDEADBEEF, 0x80000001, 0x12345678];

#[test]
fn sample_masks() {
    assert_eq!(sample_mask(1), 1);
    assert_eq!(sample_mask(3), 7);
    assert_eq!(sample_mask(16), 0xFFFF);
    assert_eq!(sample_mask(31), 0x7FFFFFFF);
    assert_eq!(sample_mask(32), u32::MAX);
}

#[test]
fn samples_are_unpacked_lowest_bits_first() {
    assert_eq!(unpack_u8::<4>(0x04030201, 8), [1, 2, 3, 4]);
    assert_eq!(unpack_u8::<10>(0b111_110_101_100_011_010_001_000, 3), [0, 1, 2, 3, 4, 5, 6, 7, 0, 0]);
    assert_eq!(unpack_u16::<2>(0xABCD1234, 16), [0x1234, 0xABCD]);
    assert_eq!(unpack_u16::<2>(0xFFFFFFFF, 11), [0x7FF, 0x7FF]);
    assert_eq!(unpack_pairs_u8::<2>(0x04030201, 8), ([1, 3], [2, 4]));
    assert_eq!(unpack_u8::<2>(0x04030201, 8), [1, 2]);
}

#[test]
fn samples_are_packed_lowest_bits_first() {
    assert_eq!(pack_u8::<4>(&[1, 2, 3, 4], 8), 0x04030201);
    assert_eq!(pack_u8::<3>(&[1, 2, 3], 4), 0x321);
    assert_eq!(pack_u16::<2>(&[0x1234, 0xABCD], 16), 0xABCD1234);
    assert_eq!(pack_pairs_u8::<2>(&[1, 3], &[2, 4], 8), 0x04030201);
}

#[test]
fn packing_cuts_samples_to_their_width() {
    assert_eq!(pack_u8::<10>(&[0xFF; 10], 3), 0x3FFFFFFF);
    assert_eq!(pack_u8::<2>(&[0xF9, 0xFA], 3), 0b010_001);
    assert_eq!(pack_u16::<2>(&[0xFFFF, 0], 11), 0x7FF);
    assert_eq!(pack_pairs_u8::<2>(&[0xFF, 0], &[0, 0xFF], 6), 0x00FC003F);
}

#[test]
fn real_round_trip_keeps_the_bits_in_use() {
    for word in WORDS {
        assert_eq!(u32::from_le_bytes(encode_3bit_real(decode_3bit_real(&word))), word & 0x3FFFFFFF);
        assert_eq!(u32::from_le_bytes(encode_6bit_real(decode_6bit_real(&word))), word & 0x3FFFFFFF);
        assert_eq!(pack_u8::<4>(&unpack_u8::<4>(word, 7), 7), word & 0x0FFFFFFF);
        assert_eq!(pack_u8::<32>(&unpack_u8::<32>(word, 1), 1), word);
        assert_eq!(pack_u16::<2>(&unpack_u16::<2>(word, 13), 13), word & 0x03FFFFFF);
    }
}

#[test]
fn complex_round_trip_keeps_the_bits_of_the_pairs() {
    for word in WORDS {
        let (i, q) = decode_3bit_complex(&word);
        assert_eq!(u32::from_le_bytes(encode_3bit_complex(i, q)), word & 0x3FFFFFFF);
        let (i, q) = decode_6bit_complex(&word);
        assert_eq!(u32::from_le_bytes(encode_6bit_complex(i, q)), word & 0x00FFFFFF);
        let (i, q) = decode_7bit_complex(&word);
        assert_eq!(u32::from_le_bytes(encode_7bit_complex(i, q)), word & 0x0FFFFFFF);
        let (i, q) = decode_11bit_complex(&word);
        assert_eq!(u32::from_le_bytes(encode_11bit_complex(i, q)), word & 0x003FFFFF);
        let (i, q) = decode_16bit_complex(&word);
        assert_eq!(u32::from_le_bytes(encode_16bit_complex(i, q)), word);
    }
}

#[test]
fn unpacking_a_packed_word_gives_the_samples_cut_to_width() {
    let samples = [0u8, 1, 6, 7, 8, 15, 0x80, 0xFF, 3, 4];
    let word = u32::from_le_bytes(encode_3bit_real(samples));
    assert_eq!(decode_3bit_real(&word), [0, 1, 6, 7, 0, 7, 0, 7, 3, 4]);
    let word = u32::from_le_bytes(encode_6bit_complex([0x41, 2], [3, 0xFF]));
    assert_eq!(decode_6bit_complex(&word), ([1, 2], [3, 0x3F]));
}

#[test]
fn complex_decoding_leaves_the_odd_sample_to_the_real_path() {
    let word = 0x3F000000 | 0x00AB_CDEF;
    let real = decode_6bit_real(&word);
    let (i, q) = decode_6bit_complex(&word);
    assert_eq!(real[4], 0x3F);
    assert_eq!([i[0], q[0], i[1], q[1]], [real[0], real[1], real[2], real[3]]);
    assert_eq!(u32::from_le_bytes(encode_6bit_complex(i, q)), 0x00AB_CDEF);
}
