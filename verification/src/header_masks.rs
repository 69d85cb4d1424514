//! The layout of the four packed words of a VDIF header.
//!
//! Every field is described once, by the mask that selects its bits and the position of
//! its lowest bit. Both the decoding and the encoding side read these constants.

use vstd::prelude::*;

verus! {

/// Word 0, bit 31: set when the frame's data is invalid.
pub const MASK_IS_VALID: u32 = 0x80000000;

/// Word 0, bit 30: set for a legacy (16 byte) header.
pub const MASK_IS_LEGACY: u32 = 0x40000000;

/// Word 0, bits 0 to 29: seconds from the reference epoch.
pub const MASK_TIME: u32 = 0x3FFFFFFF;

/// Word 1, bits 24 to 29: the reference epoch.
pub const MASK_REF_EPOCH: u32 = 0x3F000000;

/// Word 1, bits 0 to 23: the number of the frame within its second.
pub const MASK_FRAME_NO: u32 = 0x00FFFFFF;

/// Word 2, bits 29 to 31: the VDIF version.
pub const MASK_VERSION_NO: u32 = 0xE0000000;

/// Word 2, bits 24 to 28: the base two logarithm of the channel count.
pub const MASK_LOG2_CHANNELS: u32 = 0x1F000000;

/// Word 2, bits 0 to 23: the frame length in units of eight bytes.
pub const MASK_SIZE8: u32 = 0x00FFFFFF;

/// Word 3, bit 31: set for complex samples, clear for real ones.
pub const MASK_IS_REAL: u32 = 0x80000000;

/// Word 3, bits 26 to 30: bits per sample, minus one.
pub const MASK_BITS_PER_SAMPLE: u32 = 0x7C000000;

/// Word 3, bits 16 to 25: the thread identifier.
pub const MASK_THREAD_ID: u32 = 0x03FF0000;

/// Word 3, bits 0 to 15: the station identifier.
pub const MASK_STATION_ID: u32 = 0x0000FFFF;

/// Position of the lowest bit of the reference epoch in word 1.
pub const SHIFT_REF_EPOCH: u32 = 24;

/// Position of the lowest bit of the version in word 2.
pub const SHIFT_VERSION_NO: u32 = 29;

/// Position of the lowest bit of the channel exponent in word 2.
pub const SHIFT_LOG2_CHANNELS: u32 = 24;

/// Position of the lowest bit of the sample width in word 3.
pub const SHIFT_BITS_PER_SAMPLE: u32 = 26;

/// Position of the lowest bit of the thread identifier in word 3.
pub const SHIFT_THREAD_ID: u32 = 16;

/// The value of the header field that `mask` selects and whose lowest bit is at `shift`.
pub open spec fn field(word: u32, mask: u32, shift: u32) -> u32 {
    (word & mask) >> shift
}

/// The bits that a value contributes to a word when it is placed in the field selected by
/// `mask` at `shift`: whatever does not fit the field is cut off.
pub open spec fn placed(value: u32, mask: u32, shift: u32) -> u32 {
    (value << shift) & mask
}

/// Whether the flag selected by `mask` is set in `word`.
pub open spec fn flag(word: u32, mask: u32) -> bool {
    word & mask != 0
}

/// Each field is smaller than two to the power of its width.
pub proof fn lemma_field_ranges(word: u32)
    by (bit_vector)
    ensures
        field(word, MASK_TIME, 0) < 0x40000000u32,
        field(word, MASK_REF_EPOCH, SHIFT_REF_EPOCH) < 64u32,
        field(word, MASK_FRAME_NO, 0) < 0x01000000u32,
        field(word, MASK_VERSION_NO, SHIFT_VERSION_NO) < 8u32,
        field(word, MASK_LOG2_CHANNELS, SHIFT_LOG2_CHANNELS) < 32u32,
        field(word, MASK_SIZE8, 0) < 0x01000000u32,
        field(word, MASK_BITS_PER_SAMPLE, SHIFT_BITS_PER_SAMPLE) < 32u32,
        field(word, MASK_THREAD_ID, SHIFT_THREAD_ID) < 1024u32,
        field(word, MASK_STATION_ID, 0) < 0x10000u32,
        field(word, MASK_TIME, 0) == word & MASK_TIME,
        field(word, MASK_FRAME_NO, 0) == word & MASK_FRAME_NO,
        field(word, MASK_SIZE8, 0) == word & MASK_SIZE8,
        field(word, MASK_STATION_ID, 0) == word & MASK_STATION_ID,
{
}

/// The word with the flag selected by `mask` set or cleared.
pub open spec fn with_flag(word: u32, mask: u32, set: bool) -> u32 {
    if set {
        word | mask
    } else {
        word & !mask
    }
}

/// The word after a value was written to the field selected by `mask` at `shift`: the
/// value, cut to the field, is combined with what the word held by a bitwise or.
pub open spec fn with_field(word: u32, value: u32, mask: u32, shift: u32) -> u32 {
    word | placed(value, mask, shift)
}

/// Placing a value at bit 0 is masking it, and setting no bit changes nothing.
pub proof fn lemma_placed_at_zero(value: u32, mask: u32)
    by (bit_vector)
    ensures
        (value << 0u32) & mask == value & mask,
        (value & mask) | 0u32 == value & mask,
        value | 0u32 == value,
{
}

/// Writing a field and reading it again gives the union of what the field held and the
/// value cut to the field's width. Where the field was zero, that is the value cut to
/// width.
pub proof fn lemma_field_after_write(word: u32, value: u32, mask: u32, shift: u32)
    by (bit_vector)
    requires
        shift < 32,
    ensures
        field(with_field(word, value, mask, shift), mask, shift) == field(word, mask, shift) | (
        value & (mask >> shift)),
        word & mask == 0 ==> field(with_field(word, value, mask, shift), mask, shift) == value & (
        mask >> shift),
{
}

/// Writing a field changes no bit outside it: every field and flag whose mask shares no
/// bit with the written one reads as before.
pub proof fn lemma_other_field_after_write(
    word: u32,
    value: u32,
    mask: u32,
    shift: u32,
    other: u32,
    other_shift: u32,
)
    by (bit_vector)
    requires
        mask & other == 0,
    ensures
        field(with_field(word, value, mask, shift), other, other_shift) == field(
            word,
            other,
            other_shift,
        ),
        flag(with_field(word, value, mask, shift), other) == flag(word, other),
{
}

/// Writing a flag of one bit and reading it again gives what was written, and changes no
/// bit outside the flag.
pub proof fn lemma_flag_after_write(word: u32, mask: u32, set: bool, other: u32, other_shift: u32)
    by (bit_vector)
    requires
        mask == 0x80000000u32 || mask == 0x40000000u32,
        mask & other == 0,
    ensures
        flag(with_flag(word, mask, set), mask) == set,
        field(with_flag(word, mask, set), other, other_shift) == field(word, other, other_shift),
        flag(with_flag(word, mask, set), other) == flag(word, other),
{
}

} // verus!
