//! Provides functionality for reading VDIF data from bytes that are held in memory.

use vstd::prelude::*;
use vstd::slice::slice_subrange;
use crate::error::DataError;
use crate::frame::VDIFFrame;
use crate::header_encoding::HeaderFields;
use crate::parsing::{
    frame_ahead, frame_at, parse_all_frames, parse_frame, parse_header, parse_payload, rest_after,
};
use crate::payload::VDIFPayload;
use crate::word_bytes::{bytes_as_words, le_u64, u64_from_le_bytes};

verus! {

/// A reader of VDIF types from a buffer of bytes.
///
/// The [`VDIFReader`] methods behave in a similar manner to [`std::io::Read::read`] in
/// that each `get_` method also advances an internal cursor, so be careful of the order
/// that you call these functions in. A method that fails leaves the cursor where it was.
pub struct VDIFReader {
    inner: Vec<u8>,
    pos: usize,
}

impl View for VDIFReader {
    type V = Seq<u8>;

    /// The bytes that were not read yet.
    closed spec fn view(&self) -> Seq<u8> {
        self.inner@.subrange(self.pos as int, self.inner@.len() as int)
    }
}

impl VDIFReader {
    /// The cursor lies within the buffer.
    #[verifier::type_invariant]
    closed spec fn inv(self) -> bool {
        self.pos <= self.inner@.len()
    }

    /// Construct a new [`VDIFReader`] that reads the given bytes from their start.
    pub fn new(inner: Vec<u8>) -> (reader: Self)
        ensures
            reader@ == inner@,
    {
        let reader = VDIFReader { inner, pos: 0 };
        assert(reader@ =~= inner@);
        reader
    }

    /// The number of bytes that were not read yet.
    pub fn remaining(&self) -> (count: usize)
        ensures
            count == self@.len(),
    {
        proof {
            use_type_invariant(self);
        }
        self.inner.len() - self.pos
    }

    /// The bytes that were not read yet.
    fn rest(&self) -> (bytes: &[u8])
        ensures
            bytes@ == self@,
    {
        proof {
            use_type_invariant(self);
        }
        slice_subrange(self.inner.as_slice(), self.pos, self.inner.len())
    }

    /// Move the cursor on by `count` bytes.
    fn advance(&mut self, count: usize)
        requires
            count <= old(self)@.len(),
        ensures
            final(self)@ == old(self)@.subrange(count as int, old(self)@.len() as int),
    {
        proof {
            use_type_invariant(&*self);
        }
        let total = self.inner.len();
        assert(self.pos + count <= total);
        self.pos = self.pos + count;
        assert(self@ =~= old(self)@.subrange(count as int, old(self)@.len() as int));
    }

    /// Read `count` bytes, or fail where fewer are left.
    pub fn get_bytes(&mut self, count: usize) -> (read: Result<Vec<u8>, DataError>)
        ensures
            old(self)@.len() < count ==> read == Err::<Vec<u8>, DataError>(DataError::Truncated)
                && final(self)@ == old(self)@,
            old(self)@.len() >= count ==> read is Ok && read->Ok_0@ == old(self)@.subrange(
                0,
                count as int,
            ) && final(self)@ == old(self)@.subrange(count as int, old(self)@.len() as int),
    {
        if self.remaining() < count {
            return Err(DataError::Truncated);
        }
        let bytes = vstd::slice::slice_to_vec(slice_subrange(self.rest(), 0, count));
        self.advance(count);
        Ok(bytes)
    }

    /// Get the fields of a header.
    pub fn get_header(&mut self) -> (read: Result<HeaderFields, DataError>)
        ensures
            old(self)@.len() < 32 ==> read == Err::<HeaderFields, DataError>(
                DataError::Truncated,
            ) && final(self)@ == old(self)@,
            old(self)@.len() >= 32 ==> read == Ok::<HeaderFields, DataError>(
                HeaderFields::decoded(bytes_as_words(old(self)@.subrange(0, 32))),
            ) && final(self)@ == old(self)@.subrange(32, old(self)@.len() as int),
    {
        match parse_header(self.rest()) {
            Err(e) => Err(e),
            Ok((_, header)) => {
                self.advance(32);
                Ok(header)
            },
        }
    }

    /// Get a [`VDIFPayload`]. This requires passing in the associated header to determine
    /// how many bytes to read: the size that the header declares for the frame, less the
    /// 32 bytes of the header.
    pub fn get_payload(&mut self, header: &HeaderFields) -> (read: Result<VDIFPayload, DataError>)
        ensures
            header.size < 4 ==> read == Err::<VDIFPayload, DataError>(DataError::FrameTooSmall),
            header.size >= 4 && old(self)@.len() < 8 * header.size - 32 ==> read == Err::<
                VDIFPayload,
                DataError,
            >(DataError::Truncated),
            header.size >= 4 && old(self)@.len() >= 8 * header.size - 32 ==> read is Ok,
            read is Err ==> final(self)@ == old(self)@,
            read matches Ok(payload) ==> payload@ == bytes_as_words(
                old(self)@.subrange(0, 8 * header.size - 32),
            ) && final(self)@ == old(self)@.subrange(
                8 * header.size - 32,
                old(self)@.len() as int,
            ),
    {
        let before = self.remaining();
        match parse_payload(self.rest(), header) {
            Err(e) => Err(e),
            Ok((rest, payload)) => {
                let used = before - rest.len();
                self.advance(used);
                Ok(payload)
            },
        }
    }

    /// Get a [`VDIFFrame`]: the header first, then the payload sized per the header's
    /// length field.
    pub fn get_frame(&mut self) -> (read: Result<VDIFFrame, DataError>)
        ensures
            read is Ok <==> frame_ahead(old(self)@) is Ok,
            read matches Err(e) ==> frame_ahead(old(self)@) == Err::<nat, DataError>(e) && final(self)@ == old(self)@,
            read matches Ok(frame) ==> {
                let size = frame_ahead(old(self)@)->Ok_0 as int;
                &&& frame@ == bytes_as_words(old(self)@.subrange(0, size))
                &&& frame.wf()
                &&& final(self)@ == old(self)@.subrange(size, old(self)@.len() as int)
            },
    {
        let before = self.remaining();
        match parse_frame(self.rest()) {
            Err(e) => Err(e),
            Ok((rest, frame)) => {
                let used = before - rest.len();
                self.advance(used);
                Ok(frame)
            },
        }
    }

    /// Get a [`VDIFFrame`] unpacked into the fields of its header and a [`VDIFPayload`].
    pub fn get_frame_unpacked(&mut self) -> (read: Result<(HeaderFields, VDIFPayload), DataError>)
        ensures
            read is Ok <==> frame_ahead(old(self)@) is Ok,
            read matches Err(e) ==> frame_ahead(old(self)@) == Err::<nat, DataError>(e) && final(self)@ == old(self)@,
            read matches Ok((header, payload)) ==> {
                let size = frame_ahead(old(self)@)->Ok_0 as int;
                &&& header == HeaderFields::decoded(bytes_as_words(old(self)@.subrange(0, 32)))
                &&& payload@ == bytes_as_words(old(self)@.subrange(32, size))
                &&& final(self)@ == old(self)@.subrange(size, old(self)@.len() as int)
            },
    {
        let before = self.remaining();
        let input = self.rest();
        match parse_header(input) {
            Err(e) => Err(e),
            Ok((after_header, header)) => {
                assert(header.size == crate::header_masks::field(
                    bytes_as_words(input@)[2],
                    crate::header_masks::MASK_SIZE8,
                    0,
                )) by {
                    assert(bytes_as_words(input@.subrange(0, 32))[2] == bytes_as_words(input@)[2]);
                }
                match parse_payload(after_header, &header) {
                    Err(e) => Err(e),
                    Ok((rest, payload)) => {
                        let used = before - rest.len();
                        assert(after_header@.subrange(0, 8 * header.size - 32) =~= input@.subrange(
                            32,
                            8 * header.size as int,
                        ));
                        assert(rest@ =~= input@.subrange(
                            8 * header.size as int,
                            input@.len() as int,
                        ));
                        self.advance(used);
                        Ok((header, payload))
                    },
                }
            },
        }
    }

    /// The [`get_frame`](VDIFReader::get_frame) method does not know the size of the
    /// frame in advance. However, if you can **guarantee** the byte size of each frame in
    /// advance, use this method instead: it reads `framesize` bytes and returns the frame
    /// that starts them. It fails where fewer bytes are left and where no whole frame
    /// starts them.
    pub fn get_sized_frame(&mut self, framesize: usize) -> (read: Result<VDIFFrame, DataError>)
        ensures
            old(self)@.len() < framesize ==> read == Err::<VDIFFrame, DataError>(
                DataError::Truncated,
            ),
            old(self)@.len() >= framesize ==> (read is Ok <==> frame_ahead(
                old(self)@.subrange(0, framesize as int),
            ) is Ok),
            old(self)@.len() >= framesize ==> (read matches Err(e) ==> frame_ahead(
                old(self)@.subrange(0, framesize as int),
            ) == Err::<nat, DataError>(e)),
            read is Err ==> final(self)@ == old(self)@,
            read matches Ok(frame) ==> {
                let chunk = old(self)@.subrange(0, framesize as int);
                &&& frame@ == bytes_as_words(chunk.subrange(0, frame_ahead(chunk)->Ok_0 as int))
                &&& frame.wf()
                &&& final(self)@ == old(self)@.subrange(framesize as int, old(self)@.len() as int)
            },
    {
        if self.remaining() < framesize {
            return Err(DataError::Truncated);
        }
        match parse_frame(slice_subrange(self.rest(), 0, framesize)) {
            Err(e) => Err(e),
            Ok((_, frame)) => {
                self.advance(framesize);
                Ok(frame)
            },
        }
    }

    /// Read all VDIF frames that are left: frame after frame until what is left does not
    /// start with a whole frame.
    pub fn get_all_frames(&mut self) -> (frames: Vec<VDIFFrame>)
        ensures
            Ok::<Seq<u8>, DataError>(final(self)@) == rest_after(old(self)@, frames@.len()),
            frame_ahead(final(self)@) is Err,
            forall|i: int|
                0 <= i < frames@.len() ==> (#[trigger] frames@[i])@ == frame_at(
                    old(self)@,
                    i as nat,
                ) && frames@[i].wf(),
    {
        let before = self.remaining();
        match parse_all_frames(self.rest()) {
            Err(_) => Vec::new(),
            Ok((rest, frames)) => {
                proof {
                    lemma_rest_is_suffix(old(self)@, frames@.len());
                }
                let used = before - rest.len();
                self.advance(used);
                frames
            },
        }
    }

    /// Moves the cursor to the next frame without processing the payload.
    pub fn nextframe(&mut self) -> (skipped: Result<(), DataError>)
        ensures
            skipped is Ok <==> frame_ahead(old(self)@) is Ok,
            skipped matches Err(e) ==> frame_ahead(old(self)@) == Err::<nat, DataError>(e)
                && final(self)@ == old(self)@,
            skipped is Ok ==> final(self)@ == old(self)@.subrange(
                frame_ahead(old(self)@)->Ok_0 as int,
                old(self)@.len() as int,
            ),
    {
        match self.get_frame() {
            Err(e) => Err(e),
            Ok(_) => Ok(()),
        }
    }

    /// Read a VTP sequence number: eight bytes in little-endian order.
    pub fn get_sequence_number(&mut self) -> (read: Result<u64, DataError>)
        ensures
            old(self)@.len() < 8 ==> read == Err::<u64, DataError>(DataError::Truncated) && final(self)@ == old(self)@,
            old(self)@.len() >= 8 ==> read == Ok::<u64, DataError>(le_u64(old(self)@)) && final(self)@ == old(self)@.subrange(8, old(self)@.len() as int),
    {
        if self.remaining() < 8 {
            return Err(DataError::Truncated);
        }
        let seq = u64_from_le_bytes(self.rest());
        self.advance(8);
        Ok(seq)
    }
}

/// What is left after frames were taken from the front of some bytes is an end of the
/// bytes.
pub proof fn lemma_rest_is_suffix(bytes: Seq<u8>, count: nat)
    requires
        rest_after(bytes, count) is Ok,
    ensures
        rest_after(bytes, count)->Ok_0.len() <= bytes.len(),
        rest_after(bytes, count)->Ok_0 == bytes.subrange(
            bytes.len() - rest_after(bytes, count)->Ok_0.len(),
            bytes.len() as int,
        ),
    decreases count,
{
    if count == 0 {
        assert(bytes.subrange(0, bytes.len() as int) =~= bytes);
    } else {
        lemma_rest_is_suffix(bytes, (count - 1) as nat);
        let before = rest_after(bytes, (count - 1) as nat)->Ok_0;
        let size = frame_ahead(before)->Ok_0;
        assert(before.subrange(size as int, before.len() as int) =~= bytes.subrange(
            bytes.len() - (before.len() - size),
            bytes.len() as int,
        ));
    }
}

} // verus!
