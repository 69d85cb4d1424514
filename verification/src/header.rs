//! The VDIF header as the eight words that carry it.

use vstd::prelude::*;
use crate::decoding::header::{
    decode_bits_per_sample_1, decode_frameno, decode_is_legacy, decode_is_real, decode_is_valid,
    decode_log2channels, decode_ref_epoch, decode_size8, decode_stationid, decode_threadid,
    decode_time, decode_version,
};
use crate::encoding::header::{
    encode_bits_per_sample_1, encode_frameno, encode_is_legacy, encode_is_real, encode_is_valid,
    encode_log2channels, encode_ref_epoch, encode_size8, encode_stationid, encode_threadid,
    encode_time, encode_version,
};
use crate::header_masks::{
    field, flag, with_field, with_flag, MASK_BITS_PER_SAMPLE, MASK_FRAME_NO, MASK_IS_LEGACY,
    MASK_IS_REAL, MASK_IS_VALID, MASK_LOG2_CHANNELS, MASK_REF_EPOCH, MASK_SIZE8,
    MASK_STATION_ID, MASK_THREAD_ID, MASK_TIME, MASK_VERSION_NO, SHIFT_BITS_PER_SAMPLE,
    SHIFT_LOG2_CHANNELS, SHIFT_REF_EPOCH, SHIFT_THREAD_ID, SHIFT_VERSION_NO,
};
use crate::word_bytes::{bytes_as_words, word_from_le_bytes};

verus! {

/// A VDIF Header: eight 32-bit words.
///
/// A header is built by starting from [`VDIFHeader::new`] and chaining the methods that
/// set its fields, for example `VDIFHeader::new().time(1234).ref_epoch(6).size8(1004)`
/// for a header with the time field set to 1234, the reference epoch set to 6 and the
/// frame size field set to 1004 (that is 8032 bytes).
///
/// The methods that set a number combine it with the field by a bitwise or: they are
/// meant for a field that is still zero.
#[derive(Debug, Clone, Copy, PartialEq, Eq)]
pub struct VDIFHeader {
    data: [u32; 8],
}

impl View for VDIFHeader {
    type V = Seq<u32>;

    /// The eight words of the header.
    closed spec fn view(&self) -> Seq<u32> {
        self.data@
    }
}

impl Default for VDIFHeader {
    /// A header with all fields set to zero.
    fn default() -> (header: Self)
        ensures
            header@ == Seq::new(8, |i: int| 0u32),
    {
        let header = VDIFHeader { data: [0u32; 8] };
        assert(header@ =~= Seq::new(8, |i: int| 0u32));
        header
    }
}

impl VDIFHeader {
    /// Every header has eight words.
    pub proof fn lemma_len(self)
        ensures
            self@.len() == 8,
    {
    }

    /// Construct a [`VDIFHeader`] with all fields set to zero.
    pub fn new() -> (header: Self)
        ensures
            header@ == Seq::new(8, |i: int| 0u32),
    {
        let header = VDIFHeader { data: [0u32; 8] };
        assert(header@ =~= Seq::new(8, |i: int| 0u32));
        header
    }

    /// Construct an empty [`VDIFHeader`] and set the invalid bit.
    pub fn new_invalid() -> (header: Self)
        ensures
            header@ == Seq::new(8, |i: int| 0u32).update(0, with_flag(0, MASK_IS_VALID, true)),
    {
        let mut data = [0u32; 8];
        data[0] = data[0] | MASK_IS_VALID;
        let header = VDIFHeader { data };
        assert(header@ =~= Seq::new(8, |i: int| 0u32).update(0, with_flag(0, MASK_IS_VALID, true)));
        header
    }

    /// Construct a [`VDIFHeader`] from an array of `u32` words.
    pub fn from_slice(data: [u32; 8]) -> (header: Self)
        ensures
            header@ == data@,
    {
        VDIFHeader { data }
    }

    /// Construct a [`VDIFHeader`] from an array of bytes, four to a word in little-endian
    /// order.
    pub fn from_bytes(data: [u8; 32]) -> (header: Self)
        ensures
            header@ == bytes_as_words(data@),
    {
        let mut words = [0u32; 8];
        let mut i: usize = 0;
        while i < 8
            invariant
                i <= 8,
                forall|j: int| 0 <= j < i ==> #[trigger] words[j] == bytes_as_words(data@)[j],
            decreases 8 - i,
        {
            words[i] = word_from_le_bytes(
                data[4 * i],
                data[4 * i + 1],
                data[4 * i + 2],
                data[4 * i + 3],
            );
            i = i + 1;
        }
        let header = VDIFHeader { data: words };
        assert(header@ =~= bytes_as_words(data@));
        header
    }

    /// Get a reference to the underlying data.
    pub fn as_slice(&self) -> (words: &[u32; 8])
        ensures
            words@ == self@,
    {
        &self.data
    }

    /// Get a mutable reference to underlying data.
    pub fn as_mut_slice(&mut self) -> (words: &mut [u32; 8])
        ensures
            words@ == old(self)@,
            final(self)@ == final(words)@,
    {
        &mut self.data
    }


    /// Set the 'Invalid data' field.
    pub fn valid(self, is_valid: bool) -> (header: Self)
        ensures
            header@ == self@.update(
                0,
                with_flag(self@[0], MASK_IS_VALID, !is_valid),
            ),
    {
        let mut data = self.data;
        let mut word = data[0];
        encode_is_valid(&mut word, is_valid);
        data[0] = word;
        let header = VDIFHeader { data };
        assert(header@ =~= self@.update(0, word));
        header
    }

    /// Set the 'Legacy mode' field.
    pub fn legacy(self, is_legacy: bool) -> (header: Self)
        ensures
            header@ == self@.update(
                0,
                with_flag(self@[0], MASK_IS_LEGACY, is_legacy),
            ),
    {
        let mut data = self.data;
        let mut word = data[0];
        encode_is_legacy(&mut word, is_legacy);
        data[0] = word;
        let header = VDIFHeader { data };
        assert(header@ =~= self@.update(0, word));
        header
    }

    /// Set the 'Seconds from reference epoch' field.
    pub fn time(self, time: u32) -> (header: Self)
        ensures
            header@ == self@.update(
                0,
                with_field(self@[0], time, MASK_TIME, 0),
            ),
    {
        let mut data = self.data;
        let mut word = data[0];
        encode_time(&mut word, time);
        data[0] = word;
        let header = VDIFHeader { data };
        assert(header@ =~= self@.update(0, word));
        header
    }

    /// Set the 'Reference epoch for second count' field.
    pub fn ref_epoch(self, ref_epoch: u8) -> (header: Self)
        ensures
            header@ == self@.update(
                1,
                with_field(self@[1], ref_epoch as u32, MASK_REF_EPOCH, SHIFT_REF_EPOCH),
            ),
    {
        let mut data = self.data;
        let mut word = data[1];
        encode_ref_epoch(&mut word, ref_epoch);
        data[1] = word;
        let header = VDIFHeader { data };
        assert(header@ =~= self@.update(1, word));
        header
    }

    /// Set the 'Data frame # within second' field.
    pub fn frameno(self, frameno: u32) -> (header: Self)
        ensures
            header@ == self@.update(
                1,
                with_field(self@[1], frameno, MASK_FRAME_NO, 0),
            ),
    {
        let mut data = self.data;
        let mut word = data[1];
        encode_frameno(&mut word, frameno);
        data[1] = word;
        let header = VDIFHeader { data };
        assert(header@ =~= self@.update(1, word));
        header
    }

    /// Set the 'VDIF version number' field.
    pub fn version(self, version: u8) -> (header: Self)
        ensures
            header@ == self@.update(
                2,
                with_field(self@[2], version as u32, MASK_VERSION_NO, SHIFT_VERSION_NO),
            ),
    {
        let mut data = self.data;
        let mut word = data[2];
        encode_version(&mut word, version);
        data[2] = word;
        let header = VDIFHeader { data };
        assert(header@ =~= self@.update(2, word));
        header
    }

    /// Set the 'log<sub>2</sub>(channelno)' field.
    ///
    /// For example if you have 4 channels in your payload data, then pass 2 to this function.
    pub fn log2channels(self, log2channels: u8) -> (header: Self)
        ensures
            header@ == self@.update(
                2,
                with_field(self@[2], log2channels as u32, MASK_LOG2_CHANNELS, SHIFT_LOG2_CHANNELS),
            ),
    {
        let mut data = self.data;
        let mut word = data[2];
        encode_log2channels(&mut word, log2channels);
        data[2] = word;
        let header = VDIFHeader { data };
        assert(header@ =~= self@.update(2, word));
        header
    }

    /// Set the 'Data frame length' field.
    ///
    /// Note this is the size of the data frame in **units of eight bytes**.
    pub fn size8(self, size8: u32) -> (header: Self)
        ensures
            header@ == self@.update(
                2,
                with_field(self@[2], size8, MASK_SIZE8, 0),
            ),
    {
        let mut data = self.data;
        let mut word = data[2];
        encode_size8(&mut word, size8);
        data[2] = word;
        let header = VDIFHeader { data };
        assert(header@ =~= self@.update(2, word));
        header
    }

    /// Set the 'Data type' field.
    pub fn real_samples(self, is_real: bool) -> (header: Self)
        ensures
            header@ == self@.update(
                3,
                with_flag(self@[3], MASK_IS_REAL, !is_real),
            ),
    {
        let mut data = self.data;
        let mut word = data[3];
        encode_is_real(&mut word, is_real);
        data[3] = word;
        let header = VDIFHeader { data };
        assert(header@ =~= self@.update(3, word));
        header
    }

    /// Set the 'bits per sample' field.
    ///
    /// This is the bit precision of each sample **minus one**.
    pub fn bits_per_sample_1(self, bits_per_sample_1: u8) -> (header: Self)
        ensures
            header@ == self@.update(
                3,
                with_field(self@[3], bits_per_sample_1 as u32, MASK_BITS_PER_SAMPLE, SHIFT_BITS_PER_SAMPLE),
            ),
    {
        let mut data = self.data;
        let mut word = data[3];
        encode_bits_per_sample_1(&mut word, bits_per_sample_1);
        data[3] = word;
        let header = VDIFHeader { data };
        assert(header@ =~= self@.update(3, word));
        header
    }

    /// Set the 'Thread ID' field.
    pub fn thread(self, threadid: u16) -> (header: Self)
        ensures
            header@ == self@.update(
                3,
                with_field(self@[3], threadid as u32, MASK_THREAD_ID, SHIFT_THREAD_ID),
            ),
    {
        let mut data = self.data;
        let mut word = data[3];
        encode_threadid(&mut word, threadid);
        data[3] = word;
        let header = VDIFHeader { data };
        assert(header@ =~= self@.update(3, word));
        header
    }

    /// Set the 'Station ID' field.
    pub fn station(self, stationid: u16) -> (header: Self)
        ensures
            header@ == self@.update(
                3,
                with_field(self@[3], stationid as u32, MASK_STATION_ID, 0),
            ),
    {
        let mut data = self.data;
        let mut word = data[3];
        encode_stationid(&mut word, stationid);
        data[3] = word;
        let header = VDIFHeader { data };
        assert(header@ =~= self@.update(3, word));
        header
    }

    /// Get the 'Invalid data' field.
    pub fn get_valid(&self) -> (is_valid: bool)
        ensures
            is_valid == !flag(self@[0], MASK_IS_VALID),
    {
        decode_is_valid(self.data[0])
    }

    /// Get the 'Legacy mode' field.
    pub fn get_legacy(&self) -> (is_legacy: bool)
        ensures
            is_legacy == flag(self@[0], MASK_IS_LEGACY),
    {
        decode_is_legacy(self.data[0])
    }

    /// Get the 'Seconds from reference epoch' field.
    pub fn get_time(&self) -> (time: u32)
        ensures
            time == field(self@[0], MASK_TIME, 0),
            time < 0x40000000,
    {
        decode_time(self.data[0])
    }

    /// Get the 'Reference epoch for second count' field.
    pub fn get_ref_epoch(&self) -> (ref_epoch: u8)
        ensures
            ref_epoch == field(self@[1], MASK_REF_EPOCH, SHIFT_REF_EPOCH),
            ref_epoch < 64,
    {
        decode_ref_epoch(self.data[1])
    }

    /// Get the 'Data frame # within second' field.
    pub fn get_frameno(&self) -> (frameno: u32)
        ensures
            frameno == field(self@[1], MASK_FRAME_NO, 0),
            frameno < 0x1000000,
    {
        decode_frameno(self.data[1])
    }

    /// Get the 'VDIF version number' field.
    pub fn get_version(&self) -> (version: u8)
        ensures
            version == field(self@[2], MASK_VERSION_NO, SHIFT_VERSION_NO),
            version < 8,
    {
        decode_version(self.data[2])
    }

    /// Get the 'log<sub>2</sub>(channelno)' field.
    ///
    /// For example if you have 4 channels in your payload data, this will return 2.
    pub fn get_log2channels(&self) -> (log2channels: u8)
        ensures
            log2channels == field(self@[2], MASK_LOG2_CHANNELS, SHIFT_LOG2_CHANNELS),
            log2channels < 32,
    {
        decode_log2channels(self.data[2])
    }

    /// Get the 'Data frame length' field.
    ///
    /// Note this is the size of the data frame in **units of eight bytes**.
    pub fn get_size8(&self) -> (size8: u32)
        ensures
            size8 == field(self@[2], MASK_SIZE8, 0),
            size8 < 0x1000000,
    {
        decode_size8(self.data[2])
    }

    /// Get the 'Data type' field.
    pub fn get_real(&self) -> (is_real: bool)
        ensures
            is_real == !flag(self@[3], MASK_IS_REAL),
    {
        decode_is_real(self.data[3])
    }

    /// Get the 'bits per sample' field.
    ///
    /// This is the bit precision of each sample **minus one**.
    pub fn get_bits_per_sample_1(&self) -> (bits_per_sample_1: u8)
        ensures
            bits_per_sample_1 == field(self@[3], MASK_BITS_PER_SAMPLE, SHIFT_BITS_PER_SAMPLE),
            bits_per_sample_1 < 32,
    {
        decode_bits_per_sample_1(self.data[3])
    }

    /// Get the 'Thread ID' field.
    pub fn get_thread(&self) -> (threadid: u16)
        ensures
            threadid == field(self@[3], MASK_THREAD_ID, SHIFT_THREAD_ID),
            threadid < 1024,
    {
        decode_threadid(self.data[3])
    }

    /// Get the 'Station ID' field.
    pub fn get_station(&self) -> (stationid: u16)
        ensures
            stationid == field(self@[3], MASK_STATION_ID, 0),
    {
        decode_stationid(self.data[3])
    }
}

} // verus!
