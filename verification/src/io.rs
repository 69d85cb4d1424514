//! Frames in streams of bytes that are held in memory: frames of a known size are read
//! from a [`VDIFReader`] and written to the end of a vector of bytes.

use vstd::prelude::*;
use crate::error::DataError;
use crate::frame::VDIFFrame;
use crate::read::VDIFReader;
use crate::word_bytes::{bytes_as_words, le_bytes_u64, le_u64, u64_to_le_bytes, words_as_bytes};

verus! {

/// Read a VDIF frame of `frame_size` bytes. Where fewer bytes are left, nothing is read.
pub fn read_frame(reader: &mut VDIFReader, frame_size: usize) -> (read: Result<
    VDIFFrame,
    DataError,
>)
    requires
        frame_size % 8 == 0,
    ensures
        old(reader)@.len() < frame_size ==> read == Err::<VDIFFrame, DataError>(
            DataError::Truncated,
        ) && final(reader)@ == old(reader)@,
        old(reader)@.len() >= frame_size ==> read is Ok && read->Ok_0@ == bytes_as_words(
            old(reader)@.subrange(0, frame_size as int),
        ) && read->Ok_0.wf() && final(reader)@ == old(reader)@.subrange(
            frame_size as int,
            old(reader)@.len() as int,
        ),
{
    match reader.get_bytes(frame_size) {
        Err(e) => Err(e),
        Ok(bytes) => Ok(VDIFFrame::from_byte_slice(bytes.as_slice())),
    }
}

/// Read a VDIF frame of `frame_size` bytes, along with its VTP sequence number, which
/// comes before it. Where fewer bytes are left than the two have, nothing is read.
pub fn read_vtp_frame(reader: &mut VDIFReader, frame_size: usize) -> (read: Result<
    (u64, VDIFFrame),
    DataError,
>)
    requires
        frame_size % 8 == 0,
    ensures
        old(reader)@.len() < frame_size + 8 ==> read == Err::<(u64, VDIFFrame), DataError>(
            DataError::Truncated,
        ) && final(reader)@ == old(reader)@,
        old(reader)@.len() >= frame_size + 8 ==> read is Ok && final(reader)@ == old(reader)@.subrange(frame_size + 8, old(reader)@.len() as int),
        read matches Ok((seq, frame)) ==> seq == le_u64(old(reader)@) && frame@ == bytes_as_words(
            old(reader)@.subrange(8, frame_size + 8),
        ) && frame.wf(),
{
    if reader.remaining() < 8 || reader.remaining() - 8 < frame_size {
        return Err(DataError::Truncated);
    }
    let seq = match reader.get_sequence_number() {
        Err(e) => {
            return Err(e);
        },
        Ok(seq) => seq,
    };
    match read_frame(reader, frame_size) {
        Err(e) => Err(e),
        Ok(frame) => {
            assert(old(reader)@.subrange(8, old(reader)@.len() as int).subrange(
                0,
                frame_size as int,
            ) =~= old(reader)@.subrange(8, frame_size + 8));
            assert(old(reader)@.subrange(8, old(reader)@.len() as int).subrange(
                frame_size as int,
                old(reader)@.len() - 8,
            ) =~= old(reader)@.subrange(frame_size + 8, old(reader)@.len() as int));
            Ok((seq, frame))
        },
    }
}

/// Write a VDIF frame: its bytes are added to the end of `writer`.
pub fn write_frame(writer: &mut Vec<u8>, frame: VDIFFrame)
    ensures
        final(writer)@ == old(writer)@ + words_as_bytes(frame@),
{
    let mut bytes = frame.as_bytes();
    writer.append(&mut bytes);
}

/// Write a VDIF frame, along with a `u64` VTP sequence number: the eight bytes of the
/// number in little-endian order and then the bytes of the frame are added to the end of
/// `writer`.
pub fn write_vtp_frame(writer: &mut Vec<u8>, seq: u64, frame: VDIFFrame)
    ensures
        final(writer)@ == old(writer)@ + le_bytes_u64(seq) + words_as_bytes(frame@),
{
    let head = u64_to_le_bytes(seq);
    let mut i: usize = 0;
    while i < 8
        invariant
            i <= 8,
            head@ == le_bytes_u64(seq),
            writer@ == old(writer)@ + head@.subrange(0, i as int),
        decreases 8 - i,
    {
        writer.push(head[i]);
        assert(writer@ =~= old(writer)@ + head@.subrange(0, i + 1));
        i = i + 1;
    }
    assert(writer@ =~= old(writer)@ + le_bytes_u64(seq));
    write_frame(writer, frame);
}

} // verus!
