//! VDIF frames in datagrams of the VDIF Transport Protocol (VTP).
//!
//! A VDIF frame sent via VTP is labelled with a 64-bit sequence number placed before the
//! header: eight bytes in little-endian order, then the bytes of the frame.

use vstd::prelude::*;
use vstd::slice::slice_subrange;
use crate::error::DataError;
use crate::frame::VDIFFrame;
use crate::word_bytes::{
    bytes_as_words, le_bytes_u64, le_u64, u64_from_le_bytes, u64_to_le_bytes, words_as_bytes,
};

verus! {

/// The number of bytes of a sequence number.
pub const VTP_SEQUENCE_BYTES: usize = 8;

/// The sequence number and the frame that a received datagram holds. A datagram that has
/// not exactly `frame_size + 8` bytes is refused.
pub fn vtp_frame_from_datagram(datagram: &[u8], frame_size: usize) -> (received: Result<
    (u64, VDIFFrame),
    DataError,
>)
    requires
        frame_size % 8 == 0,
    ensures
        datagram@.len() != frame_size + 8 ==> received == Err::<(u64, VDIFFrame), DataError>(
            DataError::WrongSize,
        ),
        datagram@.len() == frame_size + 8 ==> received is Ok && received->Ok_0.0 == le_u64(
            datagram@,
        ) && received->Ok_0.1@ == bytes_as_words(datagram@.subrange(8, datagram@.len() as int))
            && received->Ok_0.1.wf(),
{
    if datagram.len() < VTP_SEQUENCE_BYTES || datagram.len() - VTP_SEQUENCE_BYTES != frame_size {
        return Err(DataError::WrongSize);
    }
    let seq = u64_from_le_bytes(datagram);
    let frame = VDIFFrame::from_byte_slice(
        slice_subrange(datagram, VTP_SEQUENCE_BYTES, datagram.len()),
    );
    Ok((seq, frame))
}

/// The datagram that carries a frame with its sequence number.
pub fn vtp_datagram_from_frame(seq: u64, frame: &VDIFFrame) -> (datagram: Vec<u8>)
    ensures
        datagram@ == le_bytes_u64(seq) + words_as_bytes(frame@),
{
    let head = u64_to_le_bytes(seq);
    let mut datagram: Vec<u8> = Vec::new();
    let mut i: usize = 0;
    while i < 8
        invariant
            i <= 8,
            head@ == le_bytes_u64(seq),
            datagram@ == head@.subrange(0, i as int),
        decreases 8 - i,
    {
        datagram.push(head[i]);
        assert(datagram@ =~= head@.subrange(0, i + 1));
        i = i + 1;
    }
    assert(datagram@ =~= le_bytes_u64(seq));
    let mut body = frame.as_bytes();
    datagram.append(&mut body);
    datagram
}

} // verus!
