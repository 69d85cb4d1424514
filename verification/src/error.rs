//! What can be wrong with data that was received or read.

use vstd::prelude::*;

verus! {

/// A fault in the bytes that were handed to the library. Such data is never padded or
/// cut to fit: it is reported.
#[derive(Debug, Clone, Copy, PartialEq, Eq, Structural)]
pub enum DataError {
    /// The data ends before the item that was to be read from it.
    Truncated,
    /// The header declares a frame that has no room for the header itself.
    FrameTooSmall,
    /// The number of bytes is not the one that was declared.
    WrongSize,
}

} // verus!
