//! A VDIF frame: one header and its payload in a single buffer of words.

use vstd::prelude::*;
use vstd::slice::{slice_subrange, slice_to_vec};
use crate::decoding::header::{
    decode_bits_per_sample_1, decode_frameno, decode_is_legacy, decode_is_real, decode_is_valid,
    decode_log2channels, decode_ref_epoch, decode_size8, decode_stationid, decode_threadid,
    decode_time, decode_version,
};
use crate::encoding::header::{
    encode_bits_per_sample_1, encode_frameno, encode_is_legacy, encode_is_real, encode_is_valid,
    encode_log2channels, encode_ref_epoch, encode_size8, encode_stationid, encode_threadid,
    encode_time, encode_version,
};
use crate::error::DataError;
use crate::header::VDIFHeader;
use crate::header_masks::{
    field, flag, with_field, with_flag, MASK_BITS_PER_SAMPLE, MASK_FRAME_NO, MASK_IS_LEGACY,
    MASK_IS_REAL, MASK_IS_VALID, MASK_LOG2_CHANNELS, MASK_REF_EPOCH, MASK_SIZE8,
    MASK_STATION_ID, MASK_THREAD_ID, MASK_TIME, MASK_VERSION_NO, SHIFT_BITS_PER_SAMPLE,
    SHIFT_LOG2_CHANNELS, SHIFT_REF_EPOCH, SHIFT_THREAD_ID, SHIFT_VERSION_NO,
};
use crate::word_bytes::{
    bytes_as_words, word_from_le_bytes, words_as_bytes, words_from_bytes, words_to_bytes,
};

verus! {

/// A VDIF Frame.
///
/// Each [`VDIFFrame`] owns a buffer of `u32`s: the eight words of the header, then the
/// payload. The size of a frame in bytes is a multiple of eight, so the number of its
/// words is even.
#[derive(Debug)]
pub struct VDIFFrame {
    data: Vec<u32>,
}

impl View for VDIFFrame {
    type V = Seq<u32>;

    /// The words of the frame, header first.
    closed spec fn view(&self) -> Seq<u32> {
        self.data@
    }
}

/// The text that shows the fields of a header: what `format!` makes of the ten values, in
/// this order, and the pattern
/// `<Valid: {}, Time: {}, Epoch: {}, Frame: {}, Chans: {}, Size: {}, Real: {},
/// Bits per sample: {}, Thread: {}, Station: {}>`, written in one line.
pub uninterp spec fn fields_text(
    valid: bool,
    time: u32,
    epoch: u8,
    frameno: u32,
    channels: u64,
    size: u32,
    is_real: bool,
    bits_per_sample: u8,
    thread: u16,
    station: u16,
) -> Seq<char>;

/// Formats the fields of a header as text, by `format!`. The text depends on the ten
/// values alone; [`fields_text`] is the name of it.
#[verifier::external_body]
fn format_fields(
    valid: bool,
    time: u32,
    epoch: u8,
    frameno: u32,
    channels: u64,
    size: u32,
    is_real: bool,
    bits_per_sample: u8,
    thread: u16,
    station: u16,
) -> (text: String)
    ensures
        text@ == fields_text(
            valid,
            time,
            epoch,
            frameno,
            channels,
            size,
            is_real,
            bits_per_sample,
            thread,
            station,
        ),
{
    format!(
        "<Valid: {}, Time: {}, Epoch: {}, Frame: {}, Chans: {}, Size: {}, Real: {}, \
         Bits per sample: {}, Thread: {}, Station: {}>",
        valid, time, epoch, frameno, channels, size, is_real, bits_per_sample, thread, station
    )
}

/// The number of bytes of the frame whose header starts `bytes`, as the length field of
/// the header declares it.
pub open spec fn declared_bytes(bytes: Seq<u8>) -> nat
    recommends
        bytes.len() >= 32,
{
    (8 * field(bytes_as_words(bytes)[2], MASK_SIZE8, 0)) as nat
}

/// `count` words that are all zero.
pub open spec fn zeros(count: nat) -> Seq<u32> {
    Seq::new(count, |i: int| 0u32)
}

impl VDIFFrame {
    /// The frame is a whole number of eight byte units, and its size in bytes fits a
    /// `usize`.
    pub open spec fn wf(&self) -> bool {
        &&& self@.len() % 2 == 0
        &&& self@.len() * 4 <= usize::MAX
    }

    /// Construct a [`VDIFFrame`] from a raw `u32` slice.
    pub fn new(data: Box<[u32]>) -> (frame: Self)
        requires
            data@.len() % 2 == 0,
            data@.len() * 4 <= usize::MAX,
        ensures
            frame@ == data@,
            frame.wf(),
    {
        VDIFFrame { data: data.into_vec() }
    }

    /// Construct a [`VDIFFrame`] by copying the contents of `data`.
    pub fn from_slice(data: &[u32]) -> (frame: Self)
        requires
            data@.len() % 2 == 0,
            data@.len() * 4 <= usize::MAX,
        ensures
            frame@ == data@,
            frame.wf(),
    {
        VDIFFrame { data: slice_to_vec(data) }
    }

    /// Construct a [`VDIFFrame`] by copying the contents of a `&[u8]` byte slice, four
    /// bytes to a word in little-endian order.
    pub fn from_byte_slice(data: &[u8]) -> (frame: Self)
        requires
            data@.len() % 8 == 0,
        ensures
            frame@ == bytes_as_words(data@),
            frame.wf(),
    {
        let size = data.len();
        let words = words_from_bytes(data);
        assert(words@.len() * 4 <= size);
        VDIFFrame { data: words }
    }

    /// Construct a [`VDIFFrame`] from the bytes of one whole frame. The bytes are refused
    /// where they end within the header, where the header declares a frame that has no
    /// room for a header, and where their number is not the declared size of the frame.
    pub fn from_bytes(data: &[u8]) -> (parsed: Result<Self, DataError>)
        ensures
            data@.len() < 32 ==> parsed == Err::<Self, DataError>(DataError::Truncated),
            data@.len() >= 32 && declared_bytes(data@) < 32 ==> parsed == Err::<Self, DataError>(
                DataError::FrameTooSmall,
            ),
            data@.len() >= 32 && declared_bytes(data@) >= 32 && data@.len() != declared_bytes(
                data@,
            ) ==> parsed == Err::<Self, DataError>(DataError::WrongSize),
            data@.len() >= 32 && data@.len() == declared_bytes(data@) ==> parsed is Ok,
            parsed matches Ok(frame) ==> frame@ == bytes_as_words(data@) && frame.wf(),
    {
        if data.len() < 32 {
            return Err(DataError::Truncated);
        }
        let size8 = decode_size8(word_from_le_bytes(data[8], data[9], data[10], data[11]));
        if size8 < 4 {
            return Err(DataError::FrameTooSmall);
        }
        if data.len() / 8 != size8 as usize || data.len() % 8 != 0 {
            return Err(DataError::WrongSize);
        }
        Ok(Self::from_byte_slice(data))
    }

    /// Construct a completely empty [`VDIFFrame`] with all header and data bytes set to zero.
    pub fn new_empty(frame_size: usize) -> (frame: Self)
        requires
            frame_size % 8 == 0,
        ensures
            frame@ == zeros((frame_size / 4) as nat),
            frame.wf(),
    {
        let data = vec![0u32; frame_size / 4];
        assert(data@ =~= zeros((frame_size / 4) as nat));
        VDIFFrame { data }
    }

    /// Construct a completely empty [`VDIFFrame`] with the invalid bit set, and all other
    /// bits set to zero.
    pub fn new_invalid(frame_size: usize) -> (frame: Self)
        requires
            frame_size % 8 == 0,
            frame_size > 0,
        ensures
            frame@ == zeros((frame_size / 4) as nat).update(0, with_flag(0, MASK_IS_VALID, true)),
            frame.wf(),
    {
        let mut out = Self::new_empty(frame_size);
        let word = out.data[0] | MASK_IS_VALID;
        out.data[0] = word;
        assert(out@ =~= zeros((frame_size / 4) as nat).update(
            0,
            with_flag(0, MASK_IS_VALID, true),
        ));
        out
    }

    /// Construct a [`VDIFHeader`] by copying the data from the header part of `self`
    pub fn get_header(&self) -> (header: VDIFHeader)
        requires
            self@.len() >= 8,
        ensures
            header@ == self@.subrange(0, 8),
    {
        let words = [
            self.data[0],
            self.data[1],
            self.data[2],
            self.data[3],
            self.data[4],
            self.data[5],
            self.data[6],
            self.data[7],
        ];
        assert(words@ =~= self@.subrange(0, 8));
        VDIFHeader::from_slice(words)
    }

    /// Construct a [`VDIFFrame`] by copying the information contained in a [`VDIFHeader`].
    ///
    /// The frame has the size that the header's length field declares, in units of eight
    /// bytes: its first eight words are the header, the payload is zero. The declared
    /// size must have room for the header.
    pub fn from_header(header: VDIFHeader) -> (frame: Self)
        requires
            field(header@[2], MASK_SIZE8, 0) >= 4,
        ensures
            frame@ == header@ + zeros((2 * field(header@[2], MASK_SIZE8, 0) - 8) as nat),
            frame@.len() * 4 == 8 * field(header@[2], MASK_SIZE8, 0),
            frame.wf(),
    {
        proof {
            header.lemma_len();
        }
        let size: u32 = header.get_size8() * 8;
        let mut frame = Self::new_empty(size as usize);
        let words = header.as_slice();
        let mut i: usize = 0;
        while i < 8
            invariant
                i <= 8,
                words@ == header@,
                header@.len() == 8,
                frame@.len() == size / 4,
                size >= 32,
                forall|j: int| 0 <= j < i ==> #[trigger] frame@[j] == header@[j],
                forall|j: int| i <= j < frame@.len() ==> #[trigger] frame@[j] == 0,
            decreases 8 - i,
        {
            frame.data[i] = words[i];
            i = i + 1;
        }
        assert(frame@ =~= header@ + zeros((2 * field(header@[2], MASK_SIZE8, 0) - 8) as nat));
        frame
    }

    /// Get a reference to the payload portion of this frame.
    pub fn get_payload(&self) -> (payload: &[u32])
        requires
            self@.len() >= 8,
        ensures
            payload@ == self@.subrange(8, self@.len() as int),
    {
        slice_subrange(self.data.as_slice(), 8, self.data.len())
    }

    /// Get a mutable reference to the payload portion of this frame.
    pub fn get_mut_payload(&mut self) -> (payload: &mut [u32])
        requires
            old(self)@.len() >= 8,
        ensures
            payload@ == old(self)@.subrange(8, old(self)@.len() as int),
            final(self)@ == old(self)@.subrange(0, 8) + final(payload)@,
    {
        let (_header, payload) = self.data.as_mut_slice().split_at_mut(8);
        payload
    }

    /// Get the length in `u32` words of this frame.
    pub fn len(&self) -> (len: usize)
        ensures
            len == self@.len(),
    {
        self.data.len()
    }

    /// Return true if `self` contains zero bytes.
    pub fn is_empty(&self) -> (empty: bool)
        ensures
            empty == (self@.len() == 0),
    {
        self.len() == 0
    }

    /// Get the size in bytes of this frame.
    pub fn bytesize(&self) -> (size: usize)
        requires
            self.wf(),
        ensures
            size == self@.len() * 4,
            size % 8 == 0,
    {
        self.len() * 4
    }

    /// Return a reference to the underlying `u32` slice, including the header.
    pub fn as_slice(&self) -> (words: &[u32])
        ensures
            words@ == self@,
    {
        self.data.as_slice()
    }

    /// Return a mutable reference to the underlying `u32` slice, including the header.
    pub fn as_mut_slice(&mut self) -> (words: &mut [u32])
        ensures
            words@ == old(self)@,
            final(self)@ == final(words)@,
    {
        self.data.as_mut_slice()
    }

    /// Return the underlying bytes, including the header: every word in little-endian
    /// order.
    pub fn as_bytes(&self) -> (bytes: Vec<u8>)
        ensures
            bytes@ == words_as_bytes(self@),
    {
        words_to_bytes(self.data.as_slice())
    }


    /// Set the 'Invalid data' field.
    pub fn set_valid(&mut self, is_valid: bool)
        requires
            old(self)@.len() > 0,
        ensures
            final(self)@ == old(self)@.update(
                0,
                with_flag(old(self)@[0], MASK_IS_VALID, !is_valid),
            ),
    {
        let mut word = self.data[0];
        encode_is_valid(&mut word, is_valid);
        self.data[0] = word;
        assert(self@ =~= old(self)@.update(0, word));
    }

    /// Set the 'Legacy mode' field.
    pub fn set_legacy(&mut self, is_legacy: bool)
        requires
            old(self)@.len() > 0,
        ensures
            final(self)@ == old(self)@.update(
                0,
                with_flag(old(self)@[0], MASK_IS_LEGACY, is_legacy),
            ),
    {
        let mut word = self.data[0];
        encode_is_legacy(&mut word, is_legacy);
        self.data[0] = word;
        assert(self@ =~= old(self)@.update(0, word));
    }

    /// Set the 'Seconds from reference epoch' field.
    pub fn set_time(&mut self, time: u32)
        requires
            old(self)@.len() > 0,
        ensures
            final(self)@ == old(self)@.update(
                0,
                with_field(old(self)@[0], time, MASK_TIME, 0),
            ),
    {
        let mut word = self.data[0];
        encode_time(&mut word, time);
        self.data[0] = word;
        assert(self@ =~= old(self)@.update(0, word));
    }

    /// Set the 'Reference epoch for second count' field.
    pub fn set_ref_epoch(&mut self, ref_epoch: u8)
        requires
            old(self)@.len() > 1,
        ensures
            final(self)@ == old(self)@.update(
                1,
                with_field(old(self)@[1], ref_epoch as u32, MASK_REF_EPOCH, SHIFT_REF_EPOCH),
            ),
    {
        let mut word = self.data[1];
        encode_ref_epoch(&mut word, ref_epoch);
        self.data[1] = word;
        assert(self@ =~= old(self)@.update(1, word));
    }

    /// Set the 'Data frame # within second' field.
    pub fn set_frameno(&mut self, frameno: u32)
        requires
            old(self)@.len() > 1,
        ensures
            final(self)@ == old(self)@.update(
                1,
                with_field(old(self)@[1], frameno, MASK_FRAME_NO, 0),
            ),
    {
        let mut word = self.data[1];
        encode_frameno(&mut word, frameno);
        self.data[1] = word;
        assert(self@ =~= old(self)@.update(1, word));
    }

    /// Set the 'VDIF version number' field.
    pub fn set_version(&mut self, version: u8)
        requires
            old(self)@.len() > 2,
        ensures
            final(self)@ == old(self)@.update(
                2,
                with_field(old(self)@[2], version as u32, MASK_VERSION_NO, SHIFT_VERSION_NO),
            ),
    {
        let mut word = self.data[2];
        encode_version(&mut word, version);
        self.data[2] = word;
        assert(self@ =~= old(self)@.update(2, word));
    }

    /// Set the 'log<sub>2</sub>(channelno)' field.
    ///
    /// For example if you have 4 channels in your payload data, then pass 2 to this function.
    pub fn set_log2channels(&mut self, log2channels: u8)
        requires
            old(self)@.len() > 2,
        ensures
            final(self)@ == old(self)@.update(
                2,
                with_field(old(self)@[2], log2channels as u32, MASK_LOG2_CHANNELS, SHIFT_LOG2_CHANNELS),
            ),
    {
        let mut word = self.data[2];
        encode_log2channels(&mut word, log2channels);
        self.data[2] = word;
        assert(self@ =~= old(self)@.update(2, word));
    }

    /// Set the 'Data frame length' field.
    ///
    /// Note this is the size of the data frame in **units of eight bytes**.
    pub fn set_size8(&mut self, size8: u32)
        requires
            old(self)@.len() > 2,
        ensures
            final(self)@ == old(self)@.update(
                2,
                with_field(old(self)@[2], size8, MASK_SIZE8, 0),
            ),
    {
        let mut word = self.data[2];
        encode_size8(&mut word, size8);
        self.data[2] = word;
        assert(self@ =~= old(self)@.update(2, word));
    }

    /// Set the 'Data type' field.
    pub fn set_real(&mut self, is_real: bool)
        requires
            old(self)@.len() > 3,
        ensures
            final(self)@ == old(self)@.update(
                3,
                with_flag(old(self)@[3], MASK_IS_REAL, !is_real),
            ),
    {
        let mut word = self.data[3];
        encode_is_real(&mut word, is_real);
        self.data[3] = word;
        assert(self@ =~= old(self)@.update(3, word));
    }

    /// Set the 'bits per sample' field.
    ///
    /// This is the bit precision of each sample **minus one**.
    pub fn set_bits_per_sample_1(&mut self, bits_per_sample_1: u8)
        requires
            old(self)@.len() > 3,
        ensures
            final(self)@ == old(self)@.update(
                3,
                with_field(old(self)@[3], bits_per_sample_1 as u32, MASK_BITS_PER_SAMPLE, SHIFT_BITS_PER_SAMPLE),
            ),
    {
        let mut word = self.data[3];
        encode_bits_per_sample_1(&mut word, bits_per_sample_1);
        self.data[3] = word;
        assert(self@ =~= old(self)@.update(3, word));
    }

    /// Set the 'Thread ID' field.
    pub fn set_thread(&mut self, threadid: u16)
        requires
            old(self)@.len() > 3,
        ensures
            final(self)@ == old(self)@.update(
                3,
                with_field(old(self)@[3], threadid as u32, MASK_THREAD_ID, SHIFT_THREAD_ID),
            ),
    {
        let mut word = self.data[3];
        encode_threadid(&mut word, threadid);
        self.data[3] = word;
        assert(self@ =~= old(self)@.update(3, word));
    }

    /// Set the 'Station ID' field.
    pub fn set_station(&mut self, stationid: u16)
        requires
            old(self)@.len() > 3,
        ensures
            final(self)@ == old(self)@.update(
                3,
                with_field(old(self)@[3], stationid as u32, MASK_STATION_ID, 0),
            ),
    {
        let mut word = self.data[3];
        encode_stationid(&mut word, stationid);
        self.data[3] = word;
        assert(self@ =~= old(self)@.update(3, word));
    }

    /// Get the 'Invalid data' field.
    pub fn get_valid(&self) -> (is_valid: bool)
        requires
            self@.len() > 0,
        ensures
            is_valid == !flag(self@[0], MASK_IS_VALID),
    {
        decode_is_valid(self.data[0])
    }

    /// Get the 'Legacy mode' field.
    pub fn get_legacy(&self) -> (is_legacy: bool)
        requires
            self@.len() > 0,
        ensures
            is_legacy == flag(self@[0], MASK_IS_LEGACY),
    {
        decode_is_legacy(self.data[0])
    }

    /// Get the 'Seconds from reference epoch' field.
    pub fn get_time(&self) -> (time: u32)
        requires
            self@.len() > 0,
        ensures
            time == field(self@[0], MASK_TIME, 0),
            time < 0x40000000,
    {
        decode_time(self.data[0])
    }

    /// Get the 'Reference epoch for second count' field.
    pub fn get_ref_epoch(&self) -> (ref_epoch: u8)
        requires
            self@.len() > 1,
        ensures
            ref_epoch == field(self@[1], MASK_REF_EPOCH, SHIFT_REF_EPOCH),
            ref_epoch < 64,
    {
        decode_ref_epoch(self.data[1])
    }

    /// Get the 'Data frame # within second' field.
    pub fn get_frameno(&self) -> (frameno: u32)
        requires
            self@.len() > 1,
        ensures
            frameno == field(self@[1], MASK_FRAME_NO, 0),
            frameno < 0x1000000,
    {
        decode_frameno(self.data[1])
    }

    /// Get the 'VDIF version number' field.
    pub fn get_version(&self) -> (version: u8)
        requires
            self@.len() > 2,
        ensures
            version == field(self@[2], MASK_VERSION_NO, SHIFT_VERSION_NO),
            version < 8,
    {
        decode_version(self.data[2])
    }

    /// Get the 'log<sub>2</sub>(channelno)' field.
    ///
    /// For example if you have 4 channels in your payload data, this will return 2.
    pub fn get_log2channels(&self) -> (log2channels: u8)
        requires
            self@.len() > 2,
        ensures
            log2channels == field(self@[2], MASK_LOG2_CHANNELS, SHIFT_LOG2_CHANNELS),
            log2channels < 32,
    {
        decode_log2channels(self.data[2])
    }

    /// Get the 'Data frame length' field.
    ///
    /// Note this is the size of the data frame in **units of eight bytes**.
    pub fn get_size8(&self) -> (size8: u32)
        requires
            self@.len() > 2,
        ensures
            size8 == field(self@[2], MASK_SIZE8, 0),
            size8 < 0x1000000,
    {
        decode_size8(self.data[2])
    }

    /// Get the 'Data type' field.
    pub fn get_real(&self) -> (is_real: bool)
        requires
            self@.len() > 3,
        ensures
            is_real == !flag(self@[3], MASK_IS_REAL),
    {
        decode_is_real(self.data[3])
    }

    /// Get the 'bits per sample' field.
    ///
    /// This is the bit precision of each sample **minus one**.
    pub fn get_bits_per_sample_1(&self) -> (bits_per_sample_1: u8)
        requires
            self@.len() > 3,
        ensures
            bits_per_sample_1 == field(self@[3], MASK_BITS_PER_SAMPLE, SHIFT_BITS_PER_SAMPLE),
            bits_per_sample_1 < 32,
    {
        decode_bits_per_sample_1(self.data[3])
    }

    /// Get the 'Thread ID' field.
    pub fn get_thread(&self) -> (threadid: u16)
        requires
            self@.len() > 3,
        ensures
            threadid == field(self@[3], MASK_THREAD_ID, SHIFT_THREAD_ID),
            threadid < 1024,
    {
        decode_threadid(self.data[3])
    }

    /// Get the 'Station ID' field.
    pub fn get_station(&self) -> (stationid: u16)
        requires
            self@.len() > 3,
        ensures
            stationid == field(self@[3], MASK_STATION_ID, 0),
    {
        decode_stationid(self.data[3])
    }

    /// The fields of the header as a line of text: validity, time, epoch, frame number,
    /// the number of channels, the size of the frame in bytes, the data type, the bits
    /// per sample, the thread and the station.
    pub fn summary(&self) -> (text: String)
        requires
            self@.len() > 3,
        ensures
            text@ == fields_text(
                !flag(self@[0], MASK_IS_VALID),
                field(self@[0], MASK_TIME, 0),
                field(self@[1], MASK_REF_EPOCH, SHIFT_REF_EPOCH) as u8,
                field(self@[1], MASK_FRAME_NO, 0),
                1u64 << field(self@[2], MASK_LOG2_CHANNELS, SHIFT_LOG2_CHANNELS),
                (field(self@[2], MASK_SIZE8, 0) * 8) as u32,
                !flag(self@[3], MASK_IS_REAL),
                (field(self@[3], MASK_BITS_PER_SAMPLE, SHIFT_BITS_PER_SAMPLE) + 1) as u8,
                field(self@[3], MASK_THREAD_ID, SHIFT_THREAD_ID) as u16,
                field(self@[3], MASK_STATION_ID, 0) as u16,
            ),
    {
        let log2channels = self.get_log2channels();
        format_fields(
            self.get_valid(),
            self.get_time(),
            self.get_ref_epoch(),
            self.get_frameno(),
            1u64 << (log2channels as u32),
            self.get_size8() * 8,
            self.get_real(),
            self.get_bits_per_sample_1() + 1,
            self.get_thread(),
            self.get_station(),
        )
    }
}

} // verus!
