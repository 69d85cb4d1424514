//! Functions for decoding the fields of a VDIF header, each from the word that holds it.

use vstd::prelude::*;
use crate::header_masks::{
    field, flag, lemma_field_ranges, MASK_BITS_PER_SAMPLE, MASK_FRAME_NO, MASK_IS_LEGACY,
    MASK_IS_REAL, MASK_IS_VALID, MASK_LOG2_CHANNELS, MASK_REF_EPOCH, MASK_SIZE8,
    MASK_STATION_ID, MASK_THREAD_ID, MASK_TIME, MASK_VERSION_NO, SHIFT_BITS_PER_SAMPLE,
    SHIFT_LOG2_CHANNELS, SHIFT_REF_EPOCH, SHIFT_THREAD_ID, SHIFT_VERSION_NO,
};

verus! {

/// Decode the 'Invalid data' header field from a VDIF `u32` word: `true` when the
/// invalid bit is clear.
pub fn decode_is_valid(word: u32) -> (is_valid: bool)
    ensures
        is_valid == !flag(word, MASK_IS_VALID),
{
    (word & MASK_IS_VALID) == 0
}

/// Decode the 'Legacy mode' header field from a VDIF `u32` word.
pub fn decode_is_legacy(word: u32) -> (is_legacy: bool)
    ensures
        is_legacy == flag(word, MASK_IS_LEGACY),
{
    (word & MASK_IS_LEGACY) != 0
}

/// Decode the 'Seconds from reference epoch' header field from a VDIF `u32` word.
pub fn decode_time(word: u32) -> (time: u32)
    ensures
        time == field(word, MASK_TIME, 0),
        time < 0x40000000,
{
    proof {
        lemma_field_ranges(word);
    }
    word & MASK_TIME
}

/// Decode the 'Reference Epoch' header field from a VDIF `u32` word.
pub fn decode_ref_epoch(word: u32) -> (ref_epoch: u8)
    ensures
        ref_epoch == field(word, MASK_REF_EPOCH, SHIFT_REF_EPOCH),
        ref_epoch < 64,
{
    proof {
        lemma_field_ranges(word);
    }
    ((word & MASK_REF_EPOCH) >> SHIFT_REF_EPOCH) as u8
}

/// Decode the 'Data Frame number within second' header field from a VDIF `u32` word.
pub fn decode_frameno(word: u32) -> (frameno: u32)
    ensures
        frameno == field(word, MASK_FRAME_NO, 0),
        frameno < 0x1000000,
{
    proof {
        lemma_field_ranges(word);
    }
    word & MASK_FRAME_NO
}

/// Decode the 'VDIF version number' header field from a VDIF `u32` word.
pub fn decode_version(word: u32) -> (version: u8)
    ensures
        version == field(word, MASK_VERSION_NO, SHIFT_VERSION_NO),
        version < 8,
{
    proof {
        lemma_field_ranges(word);
    }
    ((word & MASK_VERSION_NO) >> SHIFT_VERSION_NO) as u8
}

/// Decode the log<sub>2</sub>(channelno) header field from a VDIF `u32` word.
pub fn decode_log2channels(word: u32) -> (log2channels: u8)
    ensures
        log2channels == field(word, MASK_LOG2_CHANNELS, SHIFT_LOG2_CHANNELS),
        log2channels < 32,
{
    proof {
        lemma_field_ranges(word);
    }
    ((word & MASK_LOG2_CHANNELS) >> SHIFT_LOG2_CHANNELS) as u8
}

/// Decode the 'Data Frame length' header field from a VDIF `u32` word.
///
/// Note this is the size of the data frame in **units of eight bytes**.
pub fn decode_size8(word: u32) -> (size8: u32)
    ensures
        size8 == field(word, MASK_SIZE8, 0),
        size8 < 0x1000000,
{
    proof {
        lemma_field_ranges(word);
    }
    word & MASK_SIZE8
}

/// Decode the 'Data type' header field from a VDIF `u32` word: `true` for real samples,
/// `false` for complex ones.
pub fn decode_is_real(word: u32) -> (is_real: bool)
    ensures
        is_real == !flag(word, MASK_IS_REAL),
{
    (word & MASK_IS_REAL) == 0
}

/// Decode the 'bits per sample' header field from a VDIF `u32` word.
///
/// This is the bit precision of each sample **minus one**.
pub fn decode_bits_per_sample_1(word: u32) -> (bits_per_sample_1: u8)
    ensures
        bits_per_sample_1 == field(word, MASK_BITS_PER_SAMPLE, SHIFT_BITS_PER_SAMPLE),
        bits_per_sample_1 < 32,
{
    proof {
        lemma_field_ranges(word);
    }
    ((word & MASK_BITS_PER_SAMPLE) >> SHIFT_BITS_PER_SAMPLE) as u8
}

/// Decode the 'Thread ID' header field from a VDIF `u32` word.
pub fn decode_threadid(word: u32) -> (threadid: u16)
    ensures
        threadid == field(word, MASK_THREAD_ID, SHIFT_THREAD_ID),
        threadid < 1024,
{
    proof {
        lemma_field_ranges(word);
    }
    ((word & MASK_THREAD_ID) >> SHIFT_THREAD_ID) as u16
}

/// Decode the 'Station ID' header field from a VDIF `u32` word.
pub fn decode_stationid(word: u32) -> (stationid: u16)
    ensures
        stationid == field(word, MASK_STATION_ID, 0),
{
    proof {
        lemma_field_ranges(word);
    }
    (word & MASK_STATION_ID) as u16
}

} // verus!
