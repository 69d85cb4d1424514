//! Encoding of VDIF headers and payloads.

use vstd::prelude::*;
use crate::header_encoding::HeaderFields;
use crate::word_bytes::{le_byte, word_to_le_bytes, words_as_bytes};

pub mod header;
pub mod payload;

verus! {

/// Encode a header into an array of bytes: its eight words, each in little-endian order.
/// A field that is too large for its width loses its upper bits.
pub fn encode_header(header: HeaderFields) -> (bytes: [u8; 32])
    ensures
        bytes@ == words_as_bytes(header.encoded()),
{
    let words = crate::header_encoding::encode_header(header);
    let mut out: [u8; 32] = [0u8; 32];
    let mut i: usize = 0;
    while i < 8
        invariant
            i <= 8,
            words@ == header.encoded(),
            forall|k: int|
                0 <= k < 4 * i ==> #[trigger] out[k] == le_byte(words@[k / 4], (k % 4) as u32),
        decreases 8 - i,
    {
        let word = word_to_le_bytes(words[i]);
        out[4 * i] = word[0];
        out[4 * i + 1] = word[1];
        out[4 * i + 2] = word[2];
        out[4 * i + 3] = word[3];
        i = i + 1;
    }
    assert(out@ =~= words_as_bytes(header.encoded()));
    out
}

} // verus!
