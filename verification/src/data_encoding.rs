//! Encoding and decoding of VDIF payload words, for real and for complex samples.
//!
//! Up to 16 bits per sample are supported. Uncommon widths such as 6 bits are supported
//! too, but powers of two (1, 2, 4, 8, 16) fill a word without waste.
//!
//! Decoded samples are in chronological order: index 0 is the oldest sample, which lies
//! in the lowest bits of the word.
//!
//! Where the number of real samples in a word is odd, a word of complex samples holds one
//! pair less than would have room as single parts: at 6 bits a word holds 5 real samples
//! but only 2 complex ones. The complex functions leave the bits of the odd sample alone;
//! the real functions reach it.
//!
//! The bits of a word that an encoding uses are its lowest ones:
//!
//! | bits per sample | real samples | bits used | complex samples | bits used |
//! |---|---|---|---|---|
//! | 1, 2, 4, 8, 16 | 32, 16, 8, 4, 2 | 32 | 16, 8, 4, 2, 1 | 32 |
//! | 3 | 10 | 30 | 5 | 30 |
//! | 6 | 5 | 30 | 2 | 24 |
//! | 7 | 4 | 28 | 2 | 28 |
//! | 11 | 2 | 22 | 1 | 22 |
//! | 12 | 2 | 24 | 1 | 24 |
//! | 13 | 2 | 26 | 1 | 26 |
//! | 14 | 2 | 28 | 1 | 28 |
//! | 15 | 2 | 30 | 1 | 30 |

use vstd::prelude::*;
use crate::samples::{
    bytes_as_samples, in_phase_sample, interleaved, lemma_low_mask_values, pack_pairs_u8,
    pack_u16, pack_u8, packs, quadrature_sample, sample, shorts_as_samples, unpack_pairs_u8,
    unpack_u16, unpack_u8,
};
use crate::word_bytes::{le_word, word_to_le_bytes};

verus! {

/// Decode a VDIF encoded 32-bit word of 1-bit real samples.
pub fn decode_1bit_real(input: &u32) -> (out: [u8; 32])
    ensures
        forall|i: int|
            0 <= i < 32 ==> #[trigger] out[i] as u32 == sample(*input, i as nat, 1)
                && out[i] <= 1,
{
    proof {
        lemma_low_mask_values();
    }
    unpack_u8::<32>(*input, 1)
}

/// Decode a VDIF encoded 32-bit word of 1-bit complex samples into their in-phase
/// parts and their quadrature parts.
pub fn decode_1bit_complex(input: &u32) -> (out: ([u8; 16], [u8; 16]))
    ensures
        forall|i: int|
            0 <= i < 16 ==> #[trigger] out.0[i] as u32 == in_phase_sample(*input, i as nat, 1)
                && out.0[i] <= 1,
        forall|i: int|
            0 <= i < 16 ==> #[trigger] out.1[i] as u32 == quadrature_sample(*input, i as nat, 1)
                && out.1[i] <= 1,
{
    proof {
        lemma_low_mask_values();
    }
    unpack_pairs_u8::<16>(*input, 1)
}

/// Decode a VDIF encoded 32-bit word of 2-bit real samples.
pub fn decode_2bit_real(input: &u32) -> (out: [u8; 16])
    ensures
        forall|i: int|
            0 <= i < 16 ==> #[trigger] out[i] as u32 == sample(*input, i as nat, 2)
                && out[i] <= 3,
{
    proof {
        lemma_low_mask_values();
    }
    unpack_u8::<16>(*input, 2)
}

/// Decode a VDIF encoded 32-bit word of 2-bit complex samples into their in-phase
/// parts and their quadrature parts.
pub fn decode_2bit_complex(input: &u32) -> (out: ([u8; 8], [u8; 8]))
    ensures
        forall|i: int|
            0 <= i < 8 ==> #[trigger] out.0[i] as u32 == in_phase_sample(*input, i as nat, 2)
                && out.0[i] <= 3,
        forall|i: int|
            0 <= i < 8 ==> #[trigger] out.1[i] as u32 == quadrature_sample(*input, i as nat, 2)
                && out.1[i] <= 3,
{
    proof {
        lemma_low_mask_values();
    }
    unpack_pairs_u8::<8>(*input, 2)
}

/// Decode a VDIF encoded 32-bit word of 3-bit real samples.
pub fn decode_3bit_real(input: &u32) -> (out: [u8; 10])
    ensures
        forall|i: int|
            0 <= i < 10 ==> #[trigger] out[i] as u32 == sample(*input, i as nat, 3)
                && out[i] <= 7,
{
    proof {
        lemma_low_mask_values();
    }
    unpack_u8::<10>(*input, 3)
}

/// Decode a VDIF encoded 32-bit word of 3-bit complex samples into their in-phase
/// parts and their quadrature parts.
pub fn decode_3bit_complex(input: &u32) -> (out: ([u8; 5], [u8; 5]))
    ensures
        forall|i: int|
            0 <= i < 5 ==> #[trigger] out.0[i] as u32 == in_phase_sample(*input, i as nat, 3)
                && out.0[i] <= 7,
        forall|i: int|
            0 <= i < 5 ==> #[trigger] out.1[i] as u32 == quadrature_sample(*input, i as nat, 3)
                && out.1[i] <= 7,
{
    proof {
        lemma_low_mask_values();
    }
    unpack_pairs_u8::<5>(*input, 3)
}

/// Decode a VDIF encoded 32-bit word of 4-bit real samples.
pub fn decode_4bit_real(input: &u32) -> (out: [u8; 8])
    ensures
        forall|i: int|
            0 <= i < 8 ==> #[trigger] out[i] as u32 == sample(*input, i as nat, 4)
                && out[i] <= 15,
{
    proof {
        lemma_low_mask_values();
    }
    unpack_u8::<8>(*input, 4)
}

/// Decode a VDIF encoded 32-bit word of 4-bit complex samples into their in-phase
/// parts and their quadrature parts.
pub fn decode_4bit_complex(input: &u32) -> (out: ([u8; 4], [u8; 4]))
    ensures
        forall|i: int|
            0 <= i < 4 ==> #[trigger] out.0[i] as u32 == in_phase_sample(*input, i as nat, 4)
                && out.0[i] <= 15,
        forall|i: int|
            0 <= i < 4 ==> #[trigger] out.1[i] as u32 == quadrature_sample(*input, i as nat, 4)
                && out.1[i] <= 15,
{
    proof {
        lemma_low_mask_values();
    }
    unpack_pairs_u8::<4>(*input, 4)
}

/// Decode a VDIF encoded 32-bit word of 6-bit real samples.
pub fn decode_6bit_real(input: &u32) -> (out: [u8; 5])
    ensures
        forall|i: int|
            0 <= i < 5 ==> #[trigger] out[i] as u32 == sample(*input, i as nat, 6)
                && out[i] <= 63,
{
    proof {
        lemma_low_mask_values();
    }
    unpack_u8::<5>(*input, 6)
}

/// Decode a VDIF encoded 32-bit word of 6-bit complex samples into their in-phase
/// parts and their quadrature parts.
pub fn decode_6bit_complex(input: &u32) -> (out: ([u8; 2], [u8; 2]))
    ensures
        forall|i: int|
            0 <= i < 2 ==> #[trigger] out.0[i] as u32 == in_phase_sample(*input, i as nat, 6)
                && out.0[i] <= 63,
        forall|i: int|
            0 <= i < 2 ==> #[trigger] out.1[i] as u32 == quadrature_sample(*input, i as nat, 6)
                && out.1[i] <= 63,
{
    proof {
        lemma_low_mask_values();
    }
    unpack_pairs_u8::<2>(*input, 6)
}

/// Decode a VDIF encoded 32-bit word of 7-bit real samples.
pub fn decode_7bit_real(input: &u32) -> (out: [u8; 4])
    ensures
        forall|i: int|
            0 <= i < 4 ==> #[trigger] out[i] as u32 == sample(*input, i as nat, 7)
                && out[i] <= 127,
{
    proof {
        lemma_low_mask_values();
    }
    unpack_u8::<4>(*input, 7)
}

/// Decode a VDIF encoded 32-bit word of 7-bit complex samples into their in-phase
/// parts and their quadrature parts.
pub fn decode_7bit_complex(input: &u32) -> (out: ([u8; 2], [u8; 2]))
    ensures
        forall|i: int|
            0 <= i < 2 ==> #[trigger] out.0[i] as u32 == in_phase_sample(*input, i as nat, 7)
                && out.0[i] <= 127,
        forall|i: int|
            0 <= i < 2 ==> #[trigger] out.1[i] as u32 == quadrature_sample(*input, i as nat, 7)
                && out.1[i] <= 127,
{
    proof {
        lemma_low_mask_values();
    }
    unpack_pairs_u8::<2>(*input, 7)
}

/// Decode a VDIF encoded 32-bit word of 8-bit real samples.
pub fn decode_8bit_real(input: &u32) -> (out: [u8; 4])
    ensures
        forall|i: int|
            0 <= i < 4 ==> #[trigger] out[i] as u32 == sample(*input, i as nat, 8)
                && out[i] <= 255,
{
    proof {
        lemma_low_mask_values();
    }
    unpack_u8::<4>(*input, 8)
}

/// Decode a VDIF encoded 32-bit word of 8-bit complex samples into their in-phase
/// parts and their quadrature parts.
pub fn decode_8bit_complex(input: &u32) -> (out: ([u8; 2], [u8; 2]))
    ensures
        forall|i: int|
            0 <= i < 2 ==> #[trigger] out.0[i] as u32 == in_phase_sample(*input, i as nat, 8)
                && out.0[i] <= 255,
        forall|i: int|
            0 <= i < 2 ==> #[trigger] out.1[i] as u32 == quadrature_sample(*input, i as nat, 8)
                && out.1[i] <= 255,
{
    proof {
        lemma_low_mask_values();
    }
    unpack_pairs_u8::<2>(*input, 8)
}

/// Decode a VDIF encoded 32-bit word of 11-bit real samples.
pub fn decode_11bit_real(input: &u32) -> (out: [u16; 2])
    ensures
        forall|i: int|
            0 <= i < 2 ==> #[trigger] out[i] as u32 == sample(*input, i as nat, 11)
                && out[i] <= 2047,
{
    proof {
        lemma_low_mask_values();
    }
    unpack_u16::<2>(*input, 11)
}

/// Decode a VDIF encoded 32-bit word that holds one 11-bit complex sample into its
/// in-phase part and its quadrature part.
pub fn decode_11bit_complex(input: &u32) -> (out: (u16, u16))
    ensures
        out.0 as u32 == in_phase_sample(*input, 0, 11),
        out.1 as u32 == quadrature_sample(*input, 0, 11),
        out.0 <= 2047,
        out.1 <= 2047,
{
    proof {
        lemma_low_mask_values();
    }
    let parts = unpack_u16::<2>(*input, 11);
    (parts[0], parts[1])
}

/// Decode a VDIF encoded 32-bit word of 12-bit real samples.
pub fn decode_12bit_real(input: &u32) -> (out: [u16; 2])
    ensures
        forall|i: int|
            0 <= i < 2 ==> #[trigger] out[i] as u32 == sample(*input, i as nat, 12)
                && out[i] <= 4095,
{
    proof {
        lemma_low_mask_values();
    }
    unpack_u16::<2>(*input, 12)
}

/// Decode a VDIF encoded 32-bit word that holds one 12-bit complex sample into its
/// in-phase part and its quadrature part.
pub fn decode_12bit_complex(input: &u32) -> (out: (u16, u16))
    ensures
        out.0 as u32 == in_phase_sample(*input, 0, 12),
        out.1 as u32 == quadrature_sample(*input, 0, 12),
        out.0 <= 4095,
        out.1 <= 4095,
{
    proof {
        lemma_low_mask_values();
    }
    let parts = unpack_u16::<2>(*input, 12);
    (parts[0], parts[1])
}

/// Decode a VDIF encoded 32-bit word of 13-bit real samples.
pub fn decode_13bit_real(input: &u32) -> (out: [u16; 2])
    ensures
        forall|i: int|
            0 <= i < 2 ==> #[trigger] out[i] as u32 == sample(*input, i as nat, 13)
                && out[i] <= 8191,
{
    proof {
        lemma_low_mask_values();
    }
    unpack_u16::<2>(*input, 13)
}

/// Decode a VDIF encoded 32-bit word that holds one 13-bit complex sample into its
/// in-phase part and its quadrature part.
pub fn decode_13bit_complex(input: &u32) -> (out: (u16, u16))
    ensures
        out.0 as u32 == in_phase_sample(*input, 0, 13),
        out.1 as u32 == quadrature_sample(*input, 0, 13),
        out.0 <= 8191,
        out.1 <= 8191,
{
    proof {
        lemma_low_mask_values();
    }
    let parts = unpack_u16::<2>(*input, 13);
    (parts[0], parts[1])
}

/// Decode a VDIF encoded 32-bit word of 14-bit real samples.
pub fn decode_14bit_real(input: &u32) -> (out: [u16; 2])
    ensures
        forall|i: int|
            0 <= i < 2 ==> #[trigger] out[i] as u32 == sample(*input, i as nat, 14)
                && out[i] <= 16383,
{
    proof {
        lemma_low_mask_values();
    }
    unpack_u16::<2>(*input, 14)
}

/// Decode a VDIF encoded 32-bit word that holds one 14-bit complex sample into its
/// in-phase part and its quadrature part.
pub fn decode_14bit_complex(input: &u32) -> (out: (u16, u16))
    ensures
        out.0 as u32 == in_phase_sample(*input, 0, 14),
        out.1 as u32 == quadrature_sample(*input, 0, 14),
        out.0 <= 16383,
        out.1 <= 16383,
{
    proof {
        lemma_low_mask_values();
    }
    let parts = unpack_u16::<2>(*input, 14);
    (parts[0], parts[1])
}

/// Decode a VDIF encoded 32-bit word of 15-bit real samples.
pub fn decode_15bit_real(input: &u32) -> (out: [u16; 2])
    ensures
        forall|i: int|
            0 <= i < 2 ==> #[trigger] out[i] as u32 == sample(*input, i as nat, 15)
                && out[i] <= 32767,
{
    proof {
        lemma_low_mask_values();
    }
    unpack_u16::<2>(*input, 15)
}

/// Decode a VDIF encoded 32-bit word that holds one 15-bit complex sample into its
/// in-phase part and its quadrature part.
pub fn decode_15bit_complex(input: &u32) -> (out: (u16, u16))
    ensures
        out.0 as u32 == in_phase_sample(*input, 0, 15),
        out.1 as u32 == quadrature_sample(*input, 0, 15),
        out.0 <= 32767,
        out.1 <= 32767,
{
    proof {
        lemma_low_mask_values();
    }
    let parts = unpack_u16::<2>(*input, 15);
    (parts[0], parts[1])
}

/// Decode a VDIF encoded 32-bit word of 16-bit real samples.
pub fn decode_16bit_real(input: &u32) -> (out: [u16; 2])
    ensures
        forall|i: int|
            0 <= i < 2 ==> #[trigger] out[i] as u32 == sample(*input, i as nat, 16)
                && out[i] <= 65535,
{
    proof {
        lemma_low_mask_values();
    }
    unpack_u16::<2>(*input, 16)
}

/// Decode a VDIF encoded 32-bit word that holds one 16-bit complex sample into its
/// in-phase part and its quadrature part.
pub fn decode_16bit_complex(input: &u32) -> (out: (u16, u16))
    ensures
        out.0 as u32 == in_phase_sample(*input, 0, 16),
        out.1 as u32 == quadrature_sample(*input, 0, 16),
        out.0 <= 65535,
        out.1 <= 65535,
{
    proof {
        lemma_low_mask_values();
    }
    let parts = unpack_u16::<2>(*input, 16);
    (parts[0], parts[1])
}

/// Encode 32 1-bit real samples into an array of bytes.
pub fn encode_1bit_real(input: [u8; 32]) -> (out: [u8; 4])
    ensures
        packs(le_word(out@), bytes_as_samples(input@), 1),
{
    word_to_le_bytes(pack_u8::<32>(&input, 1))
}

/// Encode 16 1-bit complex samples into an array of bytes.
pub fn encode_1bit_complex(in_phase: [u8; 16], quadrature: [u8; 16]) -> (out: [u8; 4])
    ensures
        packs(
            le_word(out@),
            interleaved(bytes_as_samples(in_phase@), bytes_as_samples(quadrature@)),
            1,
        ),
{
    word_to_le_bytes(pack_pairs_u8::<16>(&in_phase, &quadrature, 1))
}

/// Encode 16 2-bit real samples into an array of bytes.
pub fn encode_2bit_real(input: [u8; 16]) -> (out: [u8; 4])
    ensures
        packs(le_word(out@), bytes_as_samples(input@), 2),
{
    word_to_le_bytes(pack_u8::<16>(&input, 2))
}

/// Encode 8 2-bit complex samples into an array of bytes.
pub fn encode_2bit_complex(in_phase: [u8; 8], quadrature: [u8; 8]) -> (out: [u8; 4])
    ensures
        packs(
            le_word(out@),
            interleaved(bytes_as_samples(in_phase@), bytes_as_samples(quadrature@)),
            2,
        ),
{
    word_to_le_bytes(pack_pairs_u8::<8>(&in_phase, &quadrature, 2))
}

/// Encode 10 3-bit real samples into an array of bytes.
pub fn encode_3bit_real(input: [u8; 10]) -> (out: [u8; 4])
    ensures
        packs(le_word(out@), bytes_as_samples(input@), 3),
{
    word_to_le_bytes(pack_u8::<10>(&input, 3))
}

/// Encode 5 3-bit complex samples into an array of bytes.
pub fn encode_3bit_complex(in_phase: [u8; 5], quadrature: [u8; 5]) -> (out: [u8; 4])
    ensures
        packs(
            le_word(out@),
            interleaved(bytes_as_samples(in_phase@), bytes_as_samples(quadrature@)),
            3,
        ),
{
    word_to_le_bytes(pack_pairs_u8::<5>(&in_phase, &quadrature, 3))
}

/// Encode 8 4-bit real samples into an array of bytes.
pub fn encode_4bit_real(input: [u8; 8]) -> (out: [u8; 4])
    ensures
        packs(le_word(out@), bytes_as_samples(input@), 4),
{
    word_to_le_bytes(pack_u8::<8>(&input, 4))
}

/// Encode 4 4-bit complex samples into an array of bytes.
pub fn encode_4bit_complex(in_phase: [u8; 4], quadrature: [u8; 4]) -> (out: [u8; 4])
    ensures
        packs(
            le_word(out@),
            interleaved(bytes_as_samples(in_phase@), bytes_as_samples(quadrature@)),
            4,
        ),
{
    word_to_le_bytes(pack_pairs_u8::<4>(&in_phase, &quadrature, 4))
}

/// Encode 5 6-bit real samples into an array of bytes.
pub fn encode_6bit_real(input: [u8; 5]) -> (out: [u8; 4])
    ensures
        packs(le_word(out@), bytes_as_samples(input@), 6),
{
    word_to_le_bytes(pack_u8::<5>(&input, 6))
}

/// Encode 2 6-bit complex samples into an array of bytes.
pub fn encode_6bit_complex(in_phase: [u8; 2], quadrature: [u8; 2]) -> (out: [u8; 4])
    ensures
        packs(
            le_word(out@),
            interleaved(bytes_as_samples(in_phase@), bytes_as_samples(quadrature@)),
            6,
        ),
{
    word_to_le_bytes(pack_pairs_u8::<2>(&in_phase, &quadrature, 6))
}

/// Encode 4 7-bit real samples into an array of bytes.
pub fn encode_7bit_real(input: [u8; 4]) -> (out: [u8; 4])
    ensures
        packs(le_word(out@), bytes_as_samples(input@), 7),
{
    word_to_le_bytes(pack_u8::<4>(&input, 7))
}

/// Encode 2 7-bit complex samples into an array of bytes.
pub fn encode_7bit_complex(in_phase: [u8; 2], quadrature: [u8; 2]) -> (out: [u8; 4])
    ensures
        packs(
            le_word(out@),
            interleaved(bytes_as_samples(in_phase@), bytes_as_samples(quadrature@)),
            7,
        ),
{
    word_to_le_bytes(pack_pairs_u8::<2>(&in_phase, &quadrature, 7))
}

/// Encode 4 8-bit real samples into an array of bytes.
pub fn encode_8bit_real(input: [u8; 4]) -> (out: [u8; 4])
    ensures
        packs(le_word(out@), bytes_as_samples(input@), 8),
{
    word_to_le_bytes(pack_u8::<4>(&input, 8))
}

/// Encode 2 8-bit complex samples into an array of bytes.
pub fn encode_8bit_complex(in_phase: [u8; 2], quadrature: [u8; 2]) -> (out: [u8; 4])
    ensures
        packs(
            le_word(out@),
            interleaved(bytes_as_samples(in_phase@), bytes_as_samples(quadrature@)),
            8,
        ),
{
    word_to_le_bytes(pack_pairs_u8::<2>(&in_phase, &quadrature, 8))
}

/// Encode 2 11-bit real samples into an array of bytes.
pub fn encode_11bit_real(input: [u16; 2]) -> (out: [u8; 4])
    ensures
        packs(le_word(out@), shorts_as_samples(input@), 11),
{
    word_to_le_bytes(pack_u16::<2>(&input, 11))
}

/// Encode an 11-bit complex sample into an array of bytes.
pub fn encode_11bit_complex(in_phase: u16, quadrature: u16) -> (out: [u8; 4])
    ensures
        packs(le_word(out@), seq![in_phase as u32, quadrature as u32], 11),
{
    let parts = [in_phase, quadrature];
    assert(shorts_as_samples(parts@) =~= seq![in_phase as u32, quadrature as u32]);
    word_to_le_bytes(pack_u16::<2>(&parts, 11))
}

/// Encode 2 12-bit real samples into an array of bytes.
pub fn encode_12bit_real(input: [u16; 2]) -> (out: [u8; 4])
    ensures
        packs(le_word(out@), shorts_as_samples(input@), 12),
{
    word_to_le_bytes(pack_u16::<2>(&input, 12))
}

/// Encode a 12-bit complex sample into an array of bytes.
pub fn encode_12bit_complex(in_phase: u16, quadrature: u16) -> (out: [u8; 4])
    ensures
        packs(le_word(out@), seq![in_phase as u32, quadrature as u32], 12),
{
    let parts = [in_phase, quadrature];
    assert(shorts_as_samples(parts@) =~= seq![in_phase as u32, quadrature as u32]);
    word_to_le_bytes(pack_u16::<2>(&parts, 12))
}

/// Encode 2 13-bit real samples into an array of bytes.
pub fn encode_13bit_real(input: [u16; 2]) -> (out: [u8; 4])
    ensures
        packs(le_word(out@), shorts_as_samples(input@), 13),
{
    word_to_le_bytes(pack_u16::<2>(&input, 13))
}

/// Encode a 13-bit complex sample into an array of bytes.
pub fn encode_13bit_complex(in_phase: u16, quadrature: u16) -> (out: [u8; 4])
    ensures
        packs(le_word(out@), seq![in_phase as u32, quadrature as u32], 13),
{
    let parts = [in_phase, quadrature];
    assert(shorts_as_samples(parts@) =~= seq![in_phase as u32, quadrature as u32]);
    word_to_le_bytes(pack_u16::<2>(&parts, 13))
}

/// Encode 2 14-bit real samples into an array of bytes.
pub fn encode_14bit_real(input: [u16; 2]) -> (out: [u8; 4])
    ensures
        packs(le_word(out@), shorts_as_samples(input@), 14),
{
    word_to_le_bytes(pack_u16::<2>(&input, 14))
}

/// Encode a 14-bit complex sample into an array of bytes.
pub fn encode_14bit_complex(in_phase: u16, quadrature: u16) -> (out: [u8; 4])
    ensures
        packs(le_word(out@), seq![in_phase as u32, quadrature as u32], 14),
{
    let parts = [in_phase, quadrature];
    assert(shorts_as_samples(parts@) =~= seq![in_phase as u32, quadrature as u32]);
    word_to_le_bytes(pack_u16::<2>(&parts, 14))
}

/// Encode 2 15-bit real samples into an array of bytes.
pub fn encode_15bit_real(input: [u16; 2]) -> (out: [u8; 4])
    ensures
        packs(le_word(out@), shorts_as_samples(input@), 15),
{
    word_to_le_bytes(pack_u16::<2>(&input, 15))
}

/// Encode a 15-bit complex sample into an array of bytes.
pub fn encode_15bit_complex(in_phase: u16, quadrature: u16) -> (out: [u8; 4])
    ensures
        packs(le_word(out@), seq![in_phase as u32, quadrature as u32], 15),
{
    let parts = [in_phase, quadrature];
    assert(shorts_as_samples(parts@) =~= seq![in_phase as u32, quadrature as u32]);
    word_to_le_bytes(pack_u16::<2>(&parts, 15))
}

/// Encode 2 16-bit real samples into an array of bytes.
pub fn encode_16bit_real(input: [u16; 2]) -> (out: [u8; 4])
    ensures
        packs(le_word(out@), shorts_as_samples(input@), 16),
{
    word_to_le_bytes(pack_u16::<2>(&input, 16))
}

/// Encode a 16-bit complex sample into an array of bytes.
pub fn encode_16bit_complex(in_phase: u16, quadrature: u16) -> (out: [u8; 4])
    ensures
        packs(le_word(out@), seq![in_phase as u32, quadrature as u32], 16),
{
    let parts = [in_phase, quadrature];
    assert(shorts_as_samples(parts@) =~= seq![in_phase as u32, quadrature as u32]);
    word_to_le_bytes(pack_u16::<2>(&parts, 16))
}

} // verus!
