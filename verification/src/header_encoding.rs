//! The header codec: a header as a record of its fields, and the eight words that carry it.
//!
//! [`encode_header`] places every field in its word after cutting it to the field's width,
//! so a value that is too large is silently truncated. [`decode_header`] reads the fields
//! back. On records whose fields fit their widths the two are inverses of each other.

use vstd::prelude::*;
use crate::decoding::header::{
    decode_bits_per_sample_1, decode_frameno, decode_is_legacy, decode_is_real, decode_is_valid,
    decode_log2channels, decode_ref_epoch, decode_size8, decode_stationid, decode_threadid,
    decode_time, decode_version,
};
use crate::frame::VDIFFrame;
use crate::header_masks::{
    field, flag, lemma_placed_at_zero, placed, MASK_BITS_PER_SAMPLE, MASK_FRAME_NO,
    MASK_IS_LEGACY, MASK_IS_REAL, MASK_IS_VALID, MASK_LOG2_CHANNELS, MASK_REF_EPOCH, MASK_SIZE8,
    MASK_STATION_ID, MASK_THREAD_ID, MASK_TIME, MASK_VERSION_NO, SHIFT_BITS_PER_SAMPLE,
    SHIFT_LOG2_CHANNELS, SHIFT_REF_EPOCH, SHIFT_THREAD_ID, SHIFT_VERSION_NO,
};

verus! {

/// A VDIF header as a record of its fields. Every field holds the number that is stored
/// on the wire: `channels` is the base two logarithm of the channel count, `size` is the
/// frame length in units of eight bytes and `bits_per_sample` is the sample width minus
/// one.
#[derive(Clone, Copy, Debug, PartialEq, Eq, Structural)]
pub struct HeaderFields {
    /// `false` when the frame's data is marked invalid.
    pub is_valid: bool,
    /// `true` for a legacy header.
    pub is_legacy: bool,
    /// Seconds from the reference epoch, 30 bits.
    pub time: u32,
    /// Reference epoch in half years since 2000, 6 bits.
    pub epoch: u8,
    /// Number of the frame within its second, 24 bits.
    pub frameno: u32,
    /// VDIF version, 3 bits.
    pub version: u8,
    /// Base two logarithm of the channel count, 5 bits.
    pub channels: u8,
    /// Frame length, header included, in units of eight bytes, 24 bits.
    pub size: u32,
    /// `true` for real samples, `false` for complex ones.
    pub is_real: bool,
    /// Bits per sample minus one, 5 bits.
    pub bits_per_sample: u8,
    /// Thread identifier, 10 bits.
    pub thread: u16,
    /// Station identifier, 16 bits.
    pub station: u16,
    /// Extended user data, word 4.
    pub edv0: u32,
    /// Extended user data, word 5.
    pub edv1: u32,
    /// Extended user data, word 6.
    pub edv2: u32,
    /// Extended user data, word 7.
    pub edv3: u32,
}

/// Word 0 of a header with the given fields.
pub open spec fn word0(is_valid: bool, is_legacy: bool, time: u32) -> u32 {
    placed(time, MASK_TIME, 0) | (if is_legacy {
        MASK_IS_LEGACY
    } else {
        0
    }) | (if is_valid {
        0
    } else {
        MASK_IS_VALID
    })
}

/// Word 1 of a header with the given fields.
pub open spec fn word1(ref_epoch: u8, frameno: u32) -> u32 {
    placed(frameno, MASK_FRAME_NO, 0) | placed(ref_epoch as u32, MASK_REF_EPOCH, SHIFT_REF_EPOCH)
}

/// Word 2 of a header with the given fields.
pub open spec fn word2(version: u8, log2channels: u8, size8: u32) -> u32 {
    placed(size8, MASK_SIZE8, 0) | placed(
        log2channels as u32,
        MASK_LOG2_CHANNELS,
        SHIFT_LOG2_CHANNELS,
    ) | placed(version as u32, MASK_VERSION_NO, SHIFT_VERSION_NO)
}

/// Word 3 of a header with the given fields.
pub open spec fn word3(is_real: bool, bits_per_sample_1: u8, threadid: u16, stationid: u16) -> u32 {
    placed(stationid as u32, MASK_STATION_ID, 0) | placed(
        threadid as u32,
        MASK_THREAD_ID,
        SHIFT_THREAD_ID,
    ) | placed(bits_per_sample_1 as u32, MASK_BITS_PER_SAMPLE, SHIFT_BITS_PER_SAMPLE) | (
    if is_real {
        0
    } else {
        MASK_IS_REAL
    })
}

impl HeaderFields {
    /// Every field fits the number of bits that the header has for it.
    pub open spec fn in_range(self) -> bool {
        &&& self.time < 0x40000000
        &&& self.epoch < 64
        &&& self.frameno < 0x1000000
        &&& self.version < 8
        &&& self.channels < 32
        &&& self.size < 0x1000000
        &&& self.bits_per_sample < 32
        &&& self.thread < 1024
    }

    /// The record with every field cut to the number of bits that the header has for it.
    pub open spec fn truncated(self) -> HeaderFields {
        HeaderFields {
            time: self.time & 0x3FFFFFFF,
            epoch: self.epoch & 0x3F,
            frameno: self.frameno & 0xFFFFFF,
            version: self.version & 0x7,
            channels: self.channels & 0x1F,
            size: self.size & 0xFFFFFF,
            bits_per_sample: self.bits_per_sample & 0x1F,
            thread: self.thread & 0x3FF,
            ..self
        }
    }

    /// The eight words that carry this header.
    pub open spec fn encoded(self) -> Seq<u32> {
        seq![
            word0(self.is_valid, self.is_legacy, self.time),
            word1(self.epoch, self.frameno),
            word2(self.version, self.channels, self.size),
            word3(self.is_real, self.bits_per_sample, self.thread, self.station),
            self.edv0,
            self.edv1,
            self.edv2,
            self.edv3,
        ]
    }

    /// The header that eight words carry.
    pub open spec fn decoded(words: Seq<u32>) -> HeaderFields
        recommends
            words.len() == 8,
    {
        HeaderFields {
            is_valid: !flag(words[0], MASK_IS_VALID),
            is_legacy: flag(words[0], MASK_IS_LEGACY),
            time: field(words[0], MASK_TIME, 0),
            epoch: field(words[1], MASK_REF_EPOCH, SHIFT_REF_EPOCH) as u8,
            frameno: field(words[1], MASK_FRAME_NO, 0),
            version: field(words[2], MASK_VERSION_NO, SHIFT_VERSION_NO) as u8,
            channels: field(words[2], MASK_LOG2_CHANNELS, SHIFT_LOG2_CHANNELS) as u8,
            size: field(words[2], MASK_SIZE8, 0),
            is_real: !flag(words[3], MASK_IS_REAL),
            bits_per_sample: field(words[3], MASK_BITS_PER_SAMPLE, SHIFT_BITS_PER_SAMPLE) as u8,
            thread: field(words[3], MASK_THREAD_ID, SHIFT_THREAD_ID) as u16,
            station: field(words[3], MASK_STATION_ID, 0) as u16,
            edv0: words[4],
            edv1: words[5],
            edv2: words[6],
            edv3: words[7],
        }
    }
}

impl Default for HeaderFields {
    /// A valid, non-legacy header of real samples with every number zero.
    fn default() -> (header: Self)
        ensures
            header == (HeaderFields {
                is_valid: true,
                is_legacy: false,
                time: 0,
                epoch: 0,
                frameno: 0,
                version: 0,
                channels: 0,
                size: 0,
                is_real: true,
                bits_per_sample: 0,
                thread: 0,
                station: 0,
                edv0: 0,
                edv1: 0,
                edv2: 0,
                edv3: 0,
            }),
    {
        HeaderFields {
            is_valid: true,
            is_legacy: false,
            time: 0,
            epoch: 0,
            frameno: 0,
            version: 0,
            channels: 0,
            size: 0,
            is_real: true,
            bits_per_sample: 0,
            thread: 0,
            station: 0,
            edv0: 0,
            edv1: 0,
            edv2: 0,
            edv3: 0,
        }
    }
}

/// Decode the zeroth word of a header: validity, legacy mode and seconds.
pub fn decode_w0(word: u32) -> (fields: (bool, bool, u32))
    ensures
        fields.0 == !flag(word, MASK_IS_VALID),
        fields.1 == flag(word, MASK_IS_LEGACY),
        fields.2 == field(word, MASK_TIME, 0),
        fields.2 < 0x40000000,
{
    (decode_is_valid(word), decode_is_legacy(word), decode_time(word))
}

/// Decode the first word of a header: reference epoch and frame number.
pub fn decode_w1(word: u32) -> (fields: (u8, u32))
    ensures
        fields.0 == field(word, MASK_REF_EPOCH, SHIFT_REF_EPOCH),
        fields.1 == field(word, MASK_FRAME_NO, 0),
        fields.0 < 64,
        fields.1 < 0x1000000,
{
    (decode_ref_epoch(word), decode_frameno(word))
}

/// Decode the second word of a header: version, channel exponent and frame length.
pub fn decode_w2(word: u32) -> (fields: (u8, u8, u32))
    ensures
        fields.0 == field(word, MASK_VERSION_NO, SHIFT_VERSION_NO),
        fields.1 == field(word, MASK_LOG2_CHANNELS, SHIFT_LOG2_CHANNELS),
        fields.2 == field(word, MASK_SIZE8, 0),
        fields.0 < 8,
        fields.1 < 32,
        fields.2 < 0x1000000,
{
    (decode_version(word), decode_log2channels(word), decode_size8(word))
}

/// Decode the third word of a header: data type, sample width, thread and station.
pub fn decode_w3(word: u32) -> (fields: (bool, u8, u16, u16))
    ensures
        fields.0 == !flag(word, MASK_IS_REAL),
        fields.1 == field(word, MASK_BITS_PER_SAMPLE, SHIFT_BITS_PER_SAMPLE),
        fields.2 == field(word, MASK_THREAD_ID, SHIFT_THREAD_ID),
        fields.3 == field(word, MASK_STATION_ID, 0),
        fields.1 < 32,
        fields.2 < 1024,
{
    (
        decode_is_real(word),
        decode_bits_per_sample_1(word),
        decode_threadid(word),
        decode_stationid(word),
    )
}

/// Decode a header from an array of eight `u32`s.
pub fn decode_header(words: [u32; 8]) -> (header: HeaderFields)
    ensures
        header == HeaderFields::decoded(words@),
        header.in_range(),
{
    let (is_valid, is_legacy, time) = decode_w0(words[0]);
    let (epoch, frameno) = decode_w1(words[1]);
    let (version, channels, size) = decode_w2(words[2]);
    let (is_real, bits_per_sample, thread, station) = decode_w3(words[3]);
    HeaderFields {
        is_valid,
        is_legacy,
        time,
        epoch,
        frameno,
        version,
        channels,
        size,
        is_real,
        bits_per_sample,
        thread,
        station,
        edv0: words[4],
        edv1: words[5],
        edv2: words[6],
        edv3: words[7],
    }
}

/// Decode the header of a [`VDIFFrame`].
pub fn decode_frame_header(frame: &VDIFFrame) -> (header: HeaderFields)
    requires
        frame@.len() >= 8,
    ensures
        header == HeaderFields::decoded(frame@.subrange(0, 8)),
        header.in_range(),
{
    let words = frame.as_slice();
    let head = [
        words[0],
        words[1],
        words[2],
        words[3],
        words[4],
        words[5],
        words[6],
        words[7],
    ];
    assert(head@ =~= frame@.subrange(0, 8));
    decode_header(head)
}

/// Encode the fields in the zeroth word of a VDIF header into a `u32`.
pub fn encode_w0(is_valid: bool, is_legacy: bool, time: u32) -> (word: u32)
    ensures
        word == word0(is_valid, is_legacy, time),
{
    proof {
        lemma_placed_at_zero(time, MASK_TIME);
    }
    let mut w0 = time & MASK_TIME;
    if is_legacy {
        w0 = w0 | MASK_IS_LEGACY;
    } else {
        proof {
            lemma_placed_at_zero(w0, MASK_TIME);
        }
    }
    if is_valid {
        proof {
            lemma_placed_at_zero(w0, MASK_TIME);
        }
    } else {
        w0 = w0 | MASK_IS_VALID;
    }
    w0
}

/// Encode the fields in the first word of a VDIF header into a `u32`.
pub fn encode_w1(ref_epoch: u8, frameno: u32) -> (word: u32)
    ensures
        word == word1(ref_epoch, frameno),
{
    proof {
        lemma_placed_at_zero(frameno, MASK_FRAME_NO);
    }
    (frameno & MASK_FRAME_NO) | (((ref_epoch as u32) << SHIFT_REF_EPOCH) & MASK_REF_EPOCH)
}

/// Encode the fields in the second word of a VDIF header into a `u32`.
pub fn encode_w2(version: u8, log2channels: u8, size8: u32) -> (word: u32)
    ensures
        word == word2(version, log2channels, size8),
{
    proof {
        lemma_placed_at_zero(size8, MASK_SIZE8);
    }
    let size = size8 & MASK_SIZE8;
    let channels = ((log2channels as u32) << SHIFT_LOG2_CHANNELS) & MASK_LOG2_CHANNELS;
    let version = ((version as u32) << SHIFT_VERSION_NO) & MASK_VERSION_NO;
    size | channels | version
}

/// Encode the fields in the third word of a VDIF header into a `u32`.
pub fn encode_w3(is_real: bool, bits_per_sample_1: u8, threadid: u16, stationid: u16) -> (word:
    u32)
    ensures
        word == word3(is_real, bits_per_sample_1, threadid, stationid),
{
    proof {
        lemma_placed_at_zero(stationid as u32, MASK_STATION_ID);
    }
    let mut w3 = ((stationid as u32) & MASK_STATION_ID) | (((threadid as u32) << SHIFT_THREAD_ID)
        & MASK_THREAD_ID) | (((bits_per_sample_1 as u32) << SHIFT_BITS_PER_SAMPLE)
        & MASK_BITS_PER_SAMPLE);
    if is_real {
        proof {
            lemma_placed_at_zero(w3, MASK_STATION_ID);
        }
    } else {
        w3 = w3 | MASK_IS_REAL;
    }
    w3
}

/// Encode a header into an array of eight `u32`s. A field that is too large for its
/// width loses its upper bits.
pub fn encode_header(header: HeaderFields) -> (words: [u32; 8])
    ensures
        words@ == header.encoded(),
{
    let words = [
        encode_w0(header.is_valid, header.is_legacy, header.time),
        encode_w1(header.epoch, header.frameno),
        encode_w2(header.version, header.channels, header.size),
        encode_w3(header.is_real, header.bits_per_sample, header.thread, header.station),
        header.edv0,
        header.edv1,
        header.edv2,
        header.edv3,
    ];
    assert(words@ =~= header.encoded());
    words
}

/// Reading the fields of an encoded word 0 gives back what was encoded, cut to width.
proof fn lemma_word0_fields(is_valid: bool, is_legacy: bool, time: u32)
    by (bit_vector)
    ensures
        !flag(word0(is_valid, is_legacy, time), MASK_IS_VALID) == is_valid,
        flag(word0(is_valid, is_legacy, time), MASK_IS_LEGACY) == is_legacy,
        field(word0(is_valid, is_legacy, time), MASK_TIME, 0) == time & 0x3FFFFFFF,
        time < 0x40000000 ==> time & 0x3FFFFFFF == time,
{
}

/// Reading the fields of an encoded word 1 gives back what was encoded, cut to width.
proof fn lemma_word1_fields(ref_epoch: u8, frameno: u32)
    by (bit_vector)
    ensures
        field(word1(ref_epoch, frameno), MASK_REF_EPOCH, SHIFT_REF_EPOCH) as u8 == ref_epoch
            & 0x3F,
        field(word1(ref_epoch, frameno), MASK_FRAME_NO, 0) == frameno & 0xFFFFFF,
        ref_epoch < 64 ==> ref_epoch & 0x3F == ref_epoch,
        frameno < 0x1000000 ==> frameno & 0xFFFFFF == frameno,
{
}

/// Reading the fields of an encoded word 2 gives back what was encoded, cut to width.
proof fn lemma_word2_fields(version: u8, log2channels: u8, size8: u32)
    by (bit_vector)
    ensures
        field(word2(version, log2channels, size8), MASK_VERSION_NO, SHIFT_VERSION_NO) as u8
            == version & 0x7,
        field(word2(version, log2channels, size8), MASK_LOG2_CHANNELS, SHIFT_LOG2_CHANNELS) as u8
            == log2channels & 0x1F,
        field(word2(version, log2channels, size8), MASK_SIZE8, 0) == size8 & 0xFFFFFF,
        version < 8 ==> version & 0x7 == version,
        log2channels < 32 ==> log2channels & 0x1F == log2channels,
        size8 < 0x1000000 ==> size8 & 0xFFFFFF == size8,
{
}

/// Reading the fields of an encoded word 3 gives back what was encoded, cut to width.
proof fn lemma_word3_fields(is_real: bool, bits_per_sample_1: u8, threadid: u16, stationid: u16)
    by (bit_vector)
    ensures
        !flag(word3(is_real, bits_per_sample_1, threadid, stationid), MASK_IS_REAL) == is_real,
        field(
            word3(is_real, bits_per_sample_1, threadid, stationid),
            MASK_BITS_PER_SAMPLE,
            SHIFT_BITS_PER_SAMPLE,
        ) as u8 == bits_per_sample_1 & 0x1F,
        field(
            word3(is_real, bits_per_sample_1, threadid, stationid),
            MASK_THREAD_ID,
            SHIFT_THREAD_ID,
        ) as u16 == threadid & 0x3FF,
        field(word3(is_real, bits_per_sample_1, threadid, stationid), MASK_STATION_ID, 0) as u16
            == stationid,
        bits_per_sample_1 < 32 ==> bits_per_sample_1 & 0x1F == bits_per_sample_1,
        threadid < 1024 ==> threadid & 0x3FF == threadid,
{
}

/// Decoding an encoded header gives the header back, with every field cut to its width.
pub proof fn lemma_decode_encode(header: HeaderFields)
    ensures
        HeaderFields::decoded(header.encoded()) == header.truncated(),
{
    lemma_word0_fields(header.is_valid, header.is_legacy, header.time);
    lemma_word1_fields(header.epoch, header.frameno);
    lemma_word2_fields(header.version, header.channels, header.size);
    lemma_word3_fields(header.is_real, header.bits_per_sample, header.thread, header.station);
}

/// A header whose fields fit their widths is not changed by cutting them.
pub proof fn lemma_truncated_in_range(header: HeaderFields)
    requires
        header.in_range(),
    ensures
        header.truncated() == header,
{
    lemma_word0_fields(header.is_valid, header.is_legacy, header.time);
    lemma_word1_fields(header.epoch, header.frameno);
    lemma_word2_fields(header.version, header.channels, header.size);
    lemma_word3_fields(header.is_real, header.bits_per_sample, header.thread, header.station);
}

/// Header round trip: for every header whose fields fit their declared widths, decoding
/// the encoded words gives the same header.
pub proof fn lemma_header_round_trip(header: HeaderFields)
    requires
        header.in_range(),
    ensures
        HeaderFields::decoded(header.encoded()) == header,
{
    lemma_decode_encode(header);
    lemma_truncated_in_range(header);
}

} // verus!
