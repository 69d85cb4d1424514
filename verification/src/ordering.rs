//! Dropping frames that arrive behind their successors.
//!
//! An [`OrderedSource`] looks at the key of every frame that a source delivers: the VTP
//! sequence number, or the number of the frame within its second. It keeps one counter,
//! the key that it expects next. A frame whose key is not behind the counter is passed
//! on; one that is behind is dropped. Either way the counter moves to the key after the
//! one just seen, so a run of stale frames cannot hold it back. Frames are never kept
//! for later or put into order.

use vstd::prelude::*;
use crate::frame::VDIFFrame;
use crate::header_masks::{field, MASK_FRAME_NO};

verus! {

/// The key that is expected after `key` was seen. Sequence numbers count on without
/// bound, as far as 64 bits go; frame numbers start again at zero after the last frame
/// of a second, which is frame `frame_rate - 1`.
pub open spec fn key_after(frame_rate: Option<u32>, key: u64) -> u64 {
    match frame_rate {
        None => if key == u64::MAX {
            0
        } else {
            (key + 1) as u64
        },
        Some(rate) => if key + 1 >= rate {
            0
        } else {
            (key + 1) as u64
        },
    }
}

/// The ordering state of one stream of frames.
pub struct OrderedSource {
    expected: u64,
    frame_rate: Option<u32>,
}

impl OrderedSource {
    /// The key that is expected next.
    pub closed spec fn expected_key(&self) -> u64 {
        self.expected
    }

    /// The number of frames per second and thread by which frame numbers are bounded, or
    /// `None` where the keys are sequence numbers.
    pub closed spec fn rate(&self) -> Option<u32> {
        self.frame_rate
    }

    /// The state for a stream that is ordered by its VTP sequence numbers. The first
    /// expected number is zero.
    pub fn new_vtp() -> (source: Self)
        ensures
            source.expected_key() == 0,
            source.rate().is_none(),
    {
        OrderedSource { expected: 0, frame_rate: None }
    }

    /// The state for a stream that is ordered by the numbers of its frames within a
    /// second, of which there are `frame_rate` per thread. The first expected number is
    /// zero.
    pub fn new(frame_rate: u32) -> (source: Self)
        ensures
            source.expected_key() == 0,
            source.rate() == Some(frame_rate),
    {
        OrderedSource { expected: 0, frame_rate: Some(frame_rate) }
    }

    /// The key that is expected next.
    pub fn expected(&self) -> (key: u64)
        ensures
            key == self.expected_key(),
    {
        self.expected
    }

    /// Take note of a key: returns whether a frame with this key is passed on, which it
    /// is unless the key is behind the expected one, and expects the key after it from
    /// now on.
    pub fn observe(&mut self, key: u64) -> (accepted: bool)
        ensures
            accepted == (old(self).expected_key() <= key),
            final(self).expected_key() == key_after(old(self).rate(), key),
            final(self).rate() == old(self).rate(),
    {
        let accepted = self.expected <= key;
        self.expected = match self.frame_rate {
            None => if key == u64::MAX {
                0
            } else {
                key + 1
            },
            Some(rate) => if key >= rate as u64 || key + 1 >= rate as u64 {
                0
            } else {
                key + 1
            },
        };
        accepted
    }

    /// Receive one frame with its key from the source: the frame is returned unless its
    /// key is behind the expected one, in which case there is no frame this call.
    pub fn next(&mut self, key: u64, frame: VDIFFrame) -> (delivered: Option<VDIFFrame>)
        ensures
            delivered is Some <==> old(self).expected_key() <= key,
            delivered is Some ==> delivered == Some(frame),
            final(self).expected_key() == key_after(old(self).rate(), key),
            final(self).rate() == old(self).rate(),
    {
        if self.observe(key) {
            Some(frame)
        } else {
            None
        }
    }

    /// Receive one frame from a source of plain frames: the key is the number of the
    /// frame within its second.
    pub fn next_frame(&mut self, frame: VDIFFrame) -> (delivered: Option<VDIFFrame>)
        requires
            frame@.len() > 1,
        ensures
            delivered is Some <==> old(self).expected_key() <= field(frame@[1], MASK_FRAME_NO, 0),
            delivered is Some ==> delivered == Some(frame),
            final(self).expected_key() == key_after(
                old(self).rate(),
                field(frame@[1], MASK_FRAME_NO, 0) as u64,
            ),
            final(self).rate() == old(self).rate(),
    {
        let key = frame.get_frameno() as u64;
        self.next(key, frame)
    }
}

} // verus!
