//! Functions for decoding VDIF payloads.
//!
//! Each function takes one 32-bit payload word apart into its samples, the oldest first.
//! A word holds as many samples as fit; from 17 bits per sample on, that is one.
//!
//! Uncommon widths such as 6 bits are supported, but powers of two (1, 2, 4, 8, 16, 32)
//! fill a word without waste.

use vstd::prelude::*;
use crate::samples::{
    lemma_bits_at_range, lemma_low_mask_values, sample, sample_mask, unpack_u16, unpack_u8,
};

verus! {

/// Decode a VDIF encoded `u32` into 32 1 bit samples.
pub fn decode_1bit(input: &u32) -> (out: [u8; 32])
    ensures
        forall|i: int|
            0 <= i < 32 ==> #[trigger] out[i] as u32 == sample(*input, i as nat, 1)
                && out[i] <= 1,
{
    proof {
        lemma_low_mask_values();
    }
    unpack_u8::<32>(*input, 1)
}

/// Decode a VDIF encoded `u32` into 16 2 bit samples.
pub fn decode_2bit(input: &u32) -> (out: [u8; 16])
    ensures
        forall|i: int|
            0 <= i < 16 ==> #[trigger] out[i] as u32 == sample(*input, i as nat, 2)
                && out[i] <= 3,
{
    proof {
        lemma_low_mask_values();
    }
    unpack_u8::<16>(*input, 2)
}

/// Decode a VDIF encoded `u32` into 10 3 bit samples.
pub fn decode_3bit(input: &u32) -> (out: [u8; 10])
    ensures
        forall|i: int|
            0 <= i < 10 ==> #[trigger] out[i] as u32 == sample(*input, i as nat, 3)
                && out[i] <= 7,
{
    proof {
        lemma_low_mask_values();
    }
    unpack_u8::<10>(*input, 3)
}

/// Decode a VDIF encoded `u32` into 8 4 bit samples.
pub fn decode_4bit(input: &u32) -> (out: [u8; 8])
    ensures
        forall|i: int|
            0 <= i < 8 ==> #[trigger] out[i] as u32 == sample(*input, i as nat, 4)
                && out[i] <= 15,
{
    proof {
        lemma_low_mask_values();
    }
    unpack_u8::<8>(*input, 4)
}

/// Decode a VDIF encoded `u32` into 5 6 bit samples.
pub fn decode_6bit(input: &u32) -> (out: [u8; 5])
    ensures
        forall|i: int|
            0 <= i < 5 ==> #[trigger] out[i] as u32 == sample(*input, i as nat, 6)
                && out[i] <= 63,
{
    proof {
        lemma_low_mask_values();
    }
    unpack_u8::<5>(*input, 6)
}

/// Decode a VDIF encoded `u32` into 4 7 bit samples.
pub fn decode_7bit(input: &u32) -> (out: [u8; 4])
    ensures
        forall|i: int|
            0 <= i < 4 ==> #[trigger] out[i] as u32 == sample(*input, i as nat, 7)
                && out[i] <= 127,
{
    proof {
        lemma_low_mask_values();
    }
    unpack_u8::<4>(*input, 7)
}

/// Decode a VDIF encoded `u32` into 4 8 bit samples.
pub fn decode_8bit(input: &u32) -> (out: [u8; 4])
    ensures
        forall|i: int|
            0 <= i < 4 ==> #[trigger] out[i] as u32 == sample(*input, i as nat, 8)
                && out[i] <= 255,
{
    proof {
        lemma_low_mask_values();
    }
    unpack_u8::<4>(*input, 8)
}

/// Decode a VDIF encoded `u32` into 2 11 bit samples.
pub fn decode_11bit(input: &u32) -> (out: [u16; 2])
    ensures
        forall|i: int|
            0 <= i < 2 ==> #[trigger] out[i] as u32 == sample(*input, i as nat, 11)
                && out[i] <= 2047,
{
    proof {
        lemma_low_mask_values();
    }
    unpack_u16::<2>(*input, 11)
}

/// Decode a VDIF encoded `u32` into 2 12 bit samples.
pub fn decode_12bit(input: &u32) -> (out: [u16; 2])
    ensures
        forall|i: int|
            0 <= i < 2 ==> #[trigger] out[i] as u32 == sample(*input, i as nat, 12)
                && out[i] <= 4095,
{
    proof {
        lemma_low_mask_values();
    }
    unpack_u16::<2>(*input, 12)
}

/// Decode a VDIF encoded `u32` into 2 13 bit samples.
pub fn decode_13bit(input: &u32) -> (out: [u16; 2])
    ensures
        forall|i: int|
            0 <= i < 2 ==> #[trigger] out[i] as u32 == sample(*input, i as nat, 13)
                && out[i] <= 8191,
{
    proof {
        lemma_low_mask_values();
    }
    unpack_u16::<2>(*input, 13)
}

/// Decode a VDIF encoded `u32` into 2 14 bit samples.
pub fn decode_14bit(input: &u32) -> (out: [u16; 2])
    ensures
        forall|i: int|
            0 <= i < 2 ==> #[trigger] out[i] as u32 == sample(*input, i as nat, 14)
                && out[i] <= 16383,
{
    proof {
        lemma_low_mask_values();
    }
    unpack_u16::<2>(*input, 14)
}

/// Decode a VDIF encoded `u32` into 2 15 bit samples.
pub fn decode_15bit(input: &u32) -> (out: [u16; 2])
    ensures
        forall|i: int|
            0 <= i < 2 ==> #[trigger] out[i] as u32 == sample(*input, i as nat, 15)
                && out[i] <= 32767,
{
    proof {
        lemma_low_mask_values();
    }
    unpack_u16::<2>(*input, 15)
}

/// Decode a VDIF encoded `u32` into 2 16 bit samples.
pub fn decode_16bit(input: &u32) -> (out: [u16; 2])
    ensures
        forall|i: int|
            0 <= i < 2 ==> #[trigger] out[i] as u32 == sample(*input, i as nat, 16)
                && out[i] <= 65535,
{
    proof {
        lemma_low_mask_values();
    }
    unpack_u16::<2>(*input, 16)
}

/// Decode a VDIF encoded `u32` into one 17 bit sample.
pub fn decode_17bit(input: &u32) -> (out: u32)
    ensures
        out == sample(*input, 0, 17),
        out <= 0x1FFFF,
{
    proof {
        lemma_bits_at_range(*input, 0, 17);
        lemma_low_mask_values();
    }
    *input & sample_mask(17)
}

/// Decode a VDIF encoded `u32` into one 18 bit sample.
pub fn decode_18bit(input: &u32) -> (out: u32)
    ensures
        out == sample(*input, 0, 18),
        out <= 0x3FFFF,
{
    proof {
        lemma_bits_at_range(*input, 0, 18);
        lemma_low_mask_values();
    }
    *input & sample_mask(18)
}

/// Decode a VDIF encoded `u32` into one 19 bit sample.
pub fn decode_19bit(input: &u32) -> (out: u32)
    ensures
        out == sample(*input, 0, 19),
        out <= 0x7FFFF,
{
    proof {
        lemma_bits_at_range(*input, 0, 19);
        lemma_low_mask_values();
    }
    *input & sample_mask(19)
}

/// Decode a VDIF encoded `u32` into one 20 bit sample.
pub fn decode_20bit(input: &u32) -> (out: u32)
    ensures
        out == sample(*input, 0, 20),
        out <= 0xFFFFF,
{
    proof {
        lemma_bits_at_range(*input, 0, 20);
        lemma_low_mask_values();
    }
    *input & sample_mask(20)
}

/// Decode a VDIF encoded `u32` into one 21 bit sample.
pub fn decode_21bit(input: &u32) -> (out: u32)
    ensures
        out == sample(*input, 0, 21),
        out <= 0x1FFFFF,
{
    proof {
        lemma_bits_at_range(*input, 0, 21);
        lemma_low_mask_values();
    }
    *input & sample_mask(21)
}

/// Decode a VDIF encoded `u32` into one 22 bit sample.
pub fn decode_22bit(input: &u32) -> (out: u32)
    ensures
        out == sample(*input, 0, 22),
        out <= 0x3FFFFF,
{
    proof {
        lemma_bits_at_range(*input, 0, 22);
        lemma_low_mask_values();
    }
    *input & sample_mask(22)
}

/// Decode a VDIF encoded `u32` into one 23 bit sample.
pub fn decode_23bit(input: &u32) -> (out: u32)
    ensures
        out == sample(*input, 0, 23),
        out <= 0x7FFFFF,
{
    proof {
        lemma_bits_at_range(*input, 0, 23);
        lemma_low_mask_values();
    }
    *input & sample_mask(23)
}

/// Decode a VDIF encoded `u32` into one 24 bit sample.
pub fn decode_24bit(input: &u32) -> (out: u32)
    ensures
        out == sample(*input, 0, 24),
        out <= 0xFFFFFF,
{
    proof {
        lemma_bits_at_range(*input, 0, 24);
        lemma_low_mask_values();
    }
    *input & sample_mask(24)
}

/// Decode a VDIF encoded `u32` into one 25 bit sample.
pub fn decode_25bit(input: &u32) -> (out: u32)
    ensures
        out == sample(*input, 0, 25),
        out <= 0x1FFFFFF,
{
    proof {
        lemma_bits_at_range(*input, 0, 25);
        lemma_low_mask_values();
    }
    *input & sample_mask(25)
}

/// Decode a VDIF encoded `u32` into one 26 bit sample.
pub fn decode_26bit(input: &u32) -> (out: u32)
    ensures
        out == sample(*input, 0, 26),
        out <= 0x3FFFFFF,
{
    proof {
        lemma_bits_at_range(*input, 0, 26);
        lemma_low_mask_values();
    }
    *input & sample_mask(26)
}

/// Decode a VDIF encoded `u32` into one 27 bit sample.
pub fn decode_27bit(input: &u32) -> (out: u32)
    ensures
        out == sample(*input, 0, 27),
        out <= 0x7FFFFFF,
{
    proof {
        lemma_bits_at_range(*input, 0, 27);
        lemma_low_mask_values();
    }
    *input & sample_mask(27)
}

/// Decode a VDIF encoded `u32` into one 28 bit sample.
pub fn decode_28bit(input: &u32) -> (out: u32)
    ensures
        out == sample(*input, 0, 28),
        out <= 0xFFFFFFF,
{
    proof {
        lemma_bits_at_range(*input, 0, 28);
        lemma_low_mask_values();
    }
    *input & sample_mask(28)
}

/// Decode a VDIF encoded `u32` into one 29 bit sample.
pub fn decode_29bit(input: &u32) -> (out: u32)
    ensures
        out == sample(*input, 0, 29),
        out <= 0x1FFFFFFF,
{
    proof {
        lemma_bits_at_range(*input, 0, 29);
        lemma_low_mask_values();
    }
    *input & sample_mask(29)
}

/// Decode a VDIF encoded `u32` into one 30 bit sample.
pub fn decode_30bit(input: &u32) -> (out: u32)
    ensures
        out == sample(*input, 0, 30),
        out <= 0x3FFFFFFF,
{
    proof {
        lemma_bits_at_range(*input, 0, 30);
        lemma_low_mask_values();
    }
    *input & sample_mask(30)
}

/// Decode a VDIF encoded `u32` into one 31 bit sample.
pub fn decode_31bit(input: &u32) -> (out: u32)
    ensures
        out == sample(*input, 0, 31),
        out <= 0x7FFFFFFF,
{
    proof {
        lemma_bits_at_range(*input, 0, 31);
        lemma_low_mask_values();
    }
    *input & sample_mask(31)
}

/// Decode a VDIF encoded `u32` into one 32 bit sample.
pub fn decode_32bit(input: &u32) -> (out: u32)
    ensures
        out == sample(*input, 0, 32),
        out <= 0xFFFFFFFF,
{
    proof {
        lemma_bits_at_range(*input, 0, 32);
        lemma_low_mask_values();
    }
    *input & sample_mask(32)
}

} // verus!
