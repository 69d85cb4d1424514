//! Functions for encoding the fields of a VDIF header, each into the word that holds it.
//!
//! The two flags of a header are written in place. Every other field is combined with
//! the word by a bitwise or, after it was cut to its width: the field is expected to be
//! zero beforehand, and setting it twice leaves the union of both values.

use vstd::prelude::*;
use crate::header_masks::{
    lemma_placed_at_zero, with_field, with_flag, MASK_BITS_PER_SAMPLE, MASK_FRAME_NO,
    MASK_IS_LEGACY, MASK_IS_REAL, MASK_IS_VALID, MASK_LOG2_CHANNELS, MASK_REF_EPOCH, MASK_SIZE8,
    MASK_STATION_ID, MASK_THREAD_ID, MASK_TIME, MASK_VERSION_NO, SHIFT_BITS_PER_SAMPLE,
    SHIFT_LOG2_CHANNELS, SHIFT_REF_EPOCH, SHIFT_THREAD_ID, SHIFT_VERSION_NO,
};

verus! {

/// Encode the 'Invalid data' header field into a VDIF `u32` word: the invalid bit is
/// cleared for a valid frame and set for an invalid one.
pub fn encode_is_valid(word: &mut u32, is_valid: bool)
    ensures
        *final(word) == with_flag(*old(word), MASK_IS_VALID, !is_valid),
{
    if is_valid {
        *word = *word & !MASK_IS_VALID;
    } else {
        *word = *word | MASK_IS_VALID;
    }
}

/// Encode the 'Legacy mode' header field into a VDIF `u32` word.
pub fn encode_is_legacy(word: &mut u32, is_legacy: bool)
    ensures
        *final(word) == with_flag(*old(word), MASK_IS_LEGACY, is_legacy),
{
    if is_legacy {
        *word = *word | MASK_IS_LEGACY;
    } else {
        *word = *word & !MASK_IS_LEGACY;
    }
}

/// Encode the 'Seconds from reference epoch' header field into a VDIF `u32` word.
pub fn encode_time(word: &mut u32, time: u32)
    ensures
        *final(word) == with_field(*old(word), time, MASK_TIME, 0),
{
    proof {
        lemma_placed_at_zero(time, MASK_TIME);
    }
    *word = *word | (time & MASK_TIME);
}

/// Encode the 'Reference Epoch' header field into a VDIF `u32` word.
pub fn encode_ref_epoch(word: &mut u32, ref_epoch: u8)
    ensures
        *final(word) == with_field(*old(word), ref_epoch as u32, MASK_REF_EPOCH, SHIFT_REF_EPOCH),
{
    *word = *word | (((ref_epoch as u32) << SHIFT_REF_EPOCH) & MASK_REF_EPOCH);
}

/// Encode the 'Data Frame number within second' header field into a VDIF `u32` word.
pub fn encode_frameno(word: &mut u32, frameno: u32)
    ensures
        *final(word) == with_field(*old(word), frameno, MASK_FRAME_NO, 0),
{
    proof {
        lemma_placed_at_zero(frameno, MASK_FRAME_NO);
    }
    *word = *word | (frameno & MASK_FRAME_NO);
}

/// Encode the 'VDIF version number' header field into a VDIF `u32` word.
pub fn encode_version(word: &mut u32, version: u8)
    ensures
        *final(word) == with_field(*old(word), version as u32, MASK_VERSION_NO, SHIFT_VERSION_NO),
{
    *word = *word | (((version as u32) << SHIFT_VERSION_NO) & MASK_VERSION_NO);
}

/// Encode the log<sub>2</sub>(channelno) header field into a VDIF `u32` word.
pub fn encode_log2channels(word: &mut u32, log2channels: u8)
    ensures
        *final(word) == with_field(
            *old(word),
            log2channels as u32,
            MASK_LOG2_CHANNELS,
            SHIFT_LOG2_CHANNELS,
        ),
{
    *word = *word | (((log2channels as u32) << SHIFT_LOG2_CHANNELS) & MASK_LOG2_CHANNELS);
}

/// Encode the 'Data Frame length' header field into a VDIF `u32` word.
///
/// Note this is the size of the data frame in **units of eight bytes**.
pub fn encode_size8(word: &mut u32, size8: u32)
    ensures
        *final(word) == with_field(*old(word), size8, MASK_SIZE8, 0),
{
    proof {
        lemma_placed_at_zero(size8, MASK_SIZE8);
    }
    *word = *word | (size8 & MASK_SIZE8);
}

/// Encode the 'Data type' header field into a VDIF `u32` word: the complex bit is
/// cleared for real samples and set for complex ones.
pub fn encode_is_real(word: &mut u32, is_real: bool)
    ensures
        *final(word) == with_flag(*old(word), MASK_IS_REAL, !is_real),
{
    if is_real {
        *word = *word & !MASK_IS_REAL;
    } else {
        *word = *word | MASK_IS_REAL;
    }
}

/// Encode the 'bits per sample' header field into a VDIF `u32` word.
///
/// This is the bit precision of each sample **minus one**.
pub fn encode_bits_per_sample_1(word: &mut u32, bits_per_sample_1: u8)
    ensures
        *final(word) == with_field(
            *old(word),
            bits_per_sample_1 as u32,
            MASK_BITS_PER_SAMPLE,
            SHIFT_BITS_PER_SAMPLE,
        ),
{
    *word = *word | (((bits_per_sample_1 as u32) << SHIFT_BITS_PER_SAMPLE) & MASK_BITS_PER_SAMPLE);
}

/// Encode the 'Thread ID' header field into a VDIF `u32` word.
pub fn encode_threadid(word: &mut u32, threadid: u16)
    ensures
        *final(word) == with_field(*old(word), threadid as u32, MASK_THREAD_ID, SHIFT_THREAD_ID),
{
    *word = *word | (((threadid as u32) << SHIFT_THREAD_ID) & MASK_THREAD_ID);
}

/// Encode the 'Station ID' header field into a VDIF `u32` word.
pub fn encode_stationid(word: &mut u32, stationid: u16)
    ensures
        *final(word) == with_field(*old(word), stationid as u32, MASK_STATION_ID, 0),
{
    proof {
        lemma_placed_at_zero(stationid as u32, MASK_STATION_ID);
    }
    *word = *word | ((stationid as u32) & MASK_STATION_ID);
}

} // verus!
