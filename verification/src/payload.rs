//! Provides functionality related to VDIF payloads.

use vstd::prelude::*;
use crate::word_bytes::{words_as_bytes, words_to_bytes};

verus! {

/// A VDIF payload, consisting of a series of [`u32`]s.
#[derive(Debug, Clone, PartialEq, Eq)]
pub struct VDIFPayload {
    words: Vec<u32>,
}

impl View for VDIFPayload {
    type V = Seq<u32>;

    /// The words of the payload.
    closed spec fn view(&self) -> Seq<u32> {
        self.words@
    }
}

impl VDIFPayload {
    /// Construct a new [`VDIFPayload`] from a [`Box<u32>`] object.
    pub fn new(words: Box<[u32]>) -> (payload: Self)
        ensures
            payload@ == words@,
    {
        VDIFPayload { words: words.into_vec() }
    }

    /// Construct a new [`VDIFPayload`] from a vector of words.
    pub fn from_vec(words: Vec<u32>) -> (payload: Self)
        ensures
            payload@ == words@,
    {
        VDIFPayload { words }
    }

    /// Return the size in 32-bit words of this payload.
    pub fn wordsize(&self) -> (size: usize)
        ensures
            size == self@.len(),
    {
        self.words.len()
    }

    /// Return the size in bytes of this payload.
    pub fn bytesize(&self) -> (size: usize)
        requires
            self@.len() * 4 <= usize::MAX,
        ensures
            size == self@.len() * 4,
    {
        self.wordsize() * 4
    }

    /// Return a reference to underlying [`u32`] slice.
    pub fn get_ref(&self) -> (words: &[u32])
        ensures
            words@ == self@,
    {
        self.words.as_slice()
    }

    /// Consume `self` and return a VDIF encoded array of bytes representing this payload:
    /// every word in little-endian order.
    pub fn encode(self) -> (bytes: Vec<u8>)
        ensures
            bytes@ == words_as_bytes(self@),
    {
        words_to_bytes(self.words.as_slice())
    }
}

} // verus!
