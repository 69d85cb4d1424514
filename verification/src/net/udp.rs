//! VDIF frames in datagrams of the User Datagram Protocol (UDP): one datagram is one
//! frame.

use vstd::prelude::*;
use crate::error::DataError;
use crate::frame::VDIFFrame;
use crate::word_bytes::{bytes_as_words, words_as_bytes};

verus! {

/// The frame that a received datagram holds. A datagram that has not exactly
/// `frame_size` bytes is not a frame of that size and is refused.
pub fn frame_from_datagram(datagram: &[u8], frame_size: usize) -> (received: Result<
    VDIFFrame,
    DataError,
>)
    requires
        frame_size % 8 == 0,
    ensures
        datagram@.len() != frame_size ==> received == Err::<VDIFFrame, DataError>(
            DataError::WrongSize,
        ),
        datagram@.len() == frame_size ==> received is Ok && received->Ok_0@ == bytes_as_words(
            datagram@,
        ) && received->Ok_0.wf(),
{
    if datagram.len() != frame_size {
        return Err(DataError::WrongSize);
    }
    Ok(VDIFFrame::from_byte_slice(datagram))
}

/// The datagram that carries a frame: the bytes of the frame.
pub fn datagram_from_frame(frame: &VDIFFrame) -> (datagram: Vec<u8>)
    ensures
        datagram@ == words_as_bytes(frame@),
{
    frame.as_bytes()
}

} // verus!
