//! Functions for encoding VDIF payloads.
//!
//! Each function packs the samples of one 32-bit payload word, the first sample into the
//! lowest bits. A sample that is too large for its width loses its upper bits.

use vstd::prelude::*;
use crate::samples::{
    bytes_as_samples, lemma_single_sample, pack_u16, pack_u8, packs, sample_mask,
    shorts_as_samples,
};

verus! {

/// Encode 32 1 bit data samples into a single `u32`.
pub fn encode_1bit(input: &[u8; 32]) -> (word: u32)
    ensures
        packs(word, bytes_as_samples(input@), 1),
{
    pack_u8::<32>(input, 1)
}

/// Encode 16 2 bit data samples into a single `u32`.
pub fn encode_2bit(input: &[u8; 16]) -> (word: u32)
    ensures
        packs(word, bytes_as_samples(input@), 2),
{
    pack_u8::<16>(input, 2)
}

/// Encode 10 3 bit data samples into a single `u32`.
pub fn encode_3bit(input: &[u8; 10]) -> (word: u32)
    ensures
        packs(word, bytes_as_samples(input@), 3),
{
    pack_u8::<10>(input, 3)
}

/// Encode 8 4 bit data samples into a single `u32`.
pub fn encode_4bit(input: &[u8; 8]) -> (word: u32)
    ensures
        packs(word, bytes_as_samples(input@), 4),
{
    pack_u8::<8>(input, 4)
}

/// Encode 5 6 bit data samples into a single `u32`.
pub fn encode_6bit(input: &[u8; 5]) -> (word: u32)
    ensures
        packs(word, bytes_as_samples(input@), 6),
{
    pack_u8::<5>(input, 6)
}

/// Encode 4 7 bit data samples into a single `u32`.
pub fn encode_7bit(input: &[u8; 4]) -> (word: u32)
    ensures
        packs(word, bytes_as_samples(input@), 7),
{
    pack_u8::<4>(input, 7)
}

/// Encode 4 8 bit data samples into a single `u32`.
pub fn encode_8bit(input: &[u8; 4]) -> (word: u32)
    ensures
        packs(word, bytes_as_samples(input@), 8),
{
    pack_u8::<4>(input, 8)
}

/// Encode 2 11 bit data samples into a single `u32`.
pub fn encode_11bit(input: &[u16; 2]) -> (word: u32)
    ensures
        packs(word, shorts_as_samples(input@), 11),
{
    pack_u16::<2>(input, 11)
}

/// Encode 2 12 bit data samples into a single `u32`.
pub fn encode_12bit(input: &[u16; 2]) -> (word: u32)
    ensures
        packs(word, shorts_as_samples(input@), 12),
{
    pack_u16::<2>(input, 12)
}

/// Encode 2 13 bit data samples into a single `u32`.
pub fn encode_13bit(input: &[u16; 2]) -> (word: u32)
    ensures
        packs(word, shorts_as_samples(input@), 13),
{
    pack_u16::<2>(input, 13)
}

/// Encode 2 14 bit data samples into a single `u32`.
pub fn encode_14bit(input: &[u16; 2]) -> (word: u32)
    ensures
        packs(word, shorts_as_samples(input@), 14),
{
    pack_u16::<2>(input, 14)
}

/// Encode 2 15 bit data samples into a single `u32`.
pub fn encode_15bit(input: &[u16; 2]) -> (word: u32)
    ensures
        packs(word, shorts_as_samples(input@), 15),
{
    pack_u16::<2>(input, 15)
}

/// Encode 2 16 bit data samples into a single `u32`.
pub fn encode_16bit(input: &[u16; 2]) -> (word: u32)
    ensures
        packs(word, shorts_as_samples(input@), 16),
{
    pack_u16::<2>(input, 16)
}

/// Encode a single 17 bit sample into a single `u32`.
pub fn encode_17bit(input: &u32) -> (word: u32)
    ensures
        packs(word, seq![*input], 17),
{
    proof {
        lemma_single_sample(*input, 17);
    }
    *input & sample_mask(17)
}

/// Encode a single 18 bit sample into a single `u32`.
pub fn encode_18bit(input: &u32) -> (word: u32)
    ensures
        packs(word, seq![*input], 18),
{
    proof {
        lemma_single_sample(*input, 18);
    }
    *input & sample_mask(18)
}

/// Encode a single 19 bit sample into a single `u32`.
pub fn encode_19bit(input: &u32) -> (word: u32)
    ensures
        packs(word, seq![*input], 19),
{
    proof {
        lemma_single_sample(*input, 19);
    }
    *input & sample_mask(19)
}

/// Encode a single 20 bit sample into a single `u32`.
pub fn encode_20bit(input: &u32) -> (word: u32)
    ensures
        packs(word, seq![*input], 20),
{
    proof {
        lemma_single_sample(*input, 20);
    }
    *input & sample_mask(20)
}

/// Encode a single 21 bit sample into a single `u32`.
pub fn encode_21bit(input: &u32) -> (word: u32)
    ensures
        packs(word, seq![*input], 21),
{
    proof {
        lemma_single_sample(*input, 21);
    }
    *input & sample_mask(21)
}

/// Encode a single 22 bit sample into a single `u32`.
pub fn encode_22bit(input: &u32) -> (word: u32)
    ensures
        packs(word, seq![*input], 22),
{
    proof {
        lemma_single_sample(*input, 22);
    }
    *input & sample_mask(22)
}

/// Encode a single 23 bit sample into a single `u32`.
pub fn encode_23bit(input: &u32) -> (word: u32)
    ensures
        packs(word, seq![*input], 23),
{
    proof {
        lemma_single_sample(*input, 23);
    }
    *input & sample_mask(23)
}

/// Encode a single 24 bit sample into a single `u32`.
pub fn encode_24bit(input: &u32) -> (word: u32)
    ensures
        packs(word, seq![*input], 24),
{
    proof {
        lemma_single_sample(*input, 24);
    }
    *input & sample_mask(24)
}

/// Encode a single 25 bit sample into a single `u32`.
pub fn encode_25bit(input: &u32) -> (word: u32)
    ensures
        packs(word, seq![*input], 25),
{
    proof {
        lemma_single_sample(*input, 25);
    }
    *input & sample_mask(25)
}

/// Encode a single 26 bit sample into a single `u32`.
pub fn encode_26bit(input: &u32) -> (word: u32)
    ensures
        packs(word, seq![*input], 26),
{
    proof {
        lemma_single_sample(*input, 26);
    }
    *input & sample_mask(26)
}

/// Encode a single 27 bit sample into a single `u32`.
pub fn encode_27bit(input: &u32) -> (word: u32)
    ensures
        packs(word, seq![*input], 27),
{
    proof {
        lemma_single_sample(*input, 27);
    }
    *input & sample_mask(27)
}

/// Encode a single 28 bit sample into a single `u32`.
pub fn encode_28bit(input: &u32) -> (word: u32)
    ensures
        packs(word, seq![*input], 28),
{
    proof {
        lemma_single_sample(*input, 28);
    }
    *input & sample_mask(28)
}

/// Encode a single 29 bit sample into a single `u32`.
pub fn encode_29bit(input: &u32) -> (word: u32)
    ensures
        packs(word, seq![*input], 29),
{
    proof {
        lemma_single_sample(*input, 29);
    }
    *input & sample_mask(29)
}

/// Encode a single 30 bit sample into a single `u32`.
pub fn encode_30bit(input: &u32) -> (word: u32)
    ensures
        packs(word, seq![*input], 30),
{
    proof {
        lemma_single_sample(*input, 30);
    }
    *input & sample_mask(30)
}

/// Encode a single 31 bit sample into a single `u32`.
pub fn encode_31bit(input: &u32) -> (word: u32)
    ensures
        packs(word, seq![*input], 31),
{
    proof {
        lemma_single_sample(*input, 31);
    }
    *input & sample_mask(31)
}

/// Encode a single 32 bit sample into a single `u32`.
pub fn encode_32bit(input: &u32) -> (word: u32)
    ensures
        packs(word, seq![*input], 32),
{
    proof {
        lemma_single_sample(*input, 32);
    }
    *input & sample_mask(32)
}

} // verus!
