//! Words and their bytes. On the wire every 32-bit word is little-endian: its lowest
//! eight bits come first.

use vstd::prelude::*;

verus! {

/// Byte `k` of a word in little-endian order, for `k` from 0 to 3.
pub open spec fn le_byte(word: u32, k: u32) -> u8 {
    ((word >> (8 * k) as u32) & 0xFF) as u8
}

/// The four bytes of a word in little-endian order.
pub open spec fn le_bytes(word: u32) -> Seq<u8> {
    seq![le_byte(word, 0), le_byte(word, 1), le_byte(word, 2), le_byte(word, 3)]
}

/// The word whose little-endian bytes are the four given ones.
pub open spec fn le_word_of(b0: u8, b1: u8, b2: u8, b3: u8) -> u32 {
    (b0 as u32) | ((b1 as u32) << 8) | ((b2 as u32) << 16) | ((b3 as u32) << 24)
}

/// The word whose little-endian bytes are the first four of `bytes`.
pub open spec fn le_word(bytes: Seq<u8>) -> u32
    recommends
        bytes.len() >= 4,
{
    le_word_of(bytes[0], bytes[1], bytes[2], bytes[3])
}

/// The bytes of a sequence of words, each word in little-endian order.
pub open spec fn words_as_bytes(words: Seq<u32>) -> Seq<u8> {
    Seq::new(4 * words.len(), |i: int| le_byte(words[i / 4], (i % 4) as u32))
}

/// The words that a sequence of bytes holds, four bytes to a word in little-endian
/// order. Bytes after the last full word are left out.
pub open spec fn bytes_as_words(bytes: Seq<u8>) -> Seq<u32> {
    Seq::new(
        (bytes.len() / 4) as nat,
        |i: int| le_word_of(bytes[4 * i], bytes[4 * i + 1], bytes[4 * i + 2], bytes[4 * i + 3]),
    )
}

/// The 64-bit number whose little-endian bytes are the first eight of `bytes`.
pub open spec fn le_u64(bytes: Seq<u8>) -> u64
    recommends
        bytes.len() >= 8,
{
    le_u64_of(bytes[0], bytes[1], bytes[2], bytes[3], bytes[4], bytes[5], bytes[6], bytes[7])
}

/// Byte `k` of a 64-bit number in little-endian order, for `k` from 0 to 7.
pub open spec fn le_byte_u64(value: u64, k: u64) -> u8 {
    ((value >> (8 * k) as u64) & 0xFF) as u8
}

/// Taking a word apart into bytes and putting it together again gives the word, and the
/// other way round.
pub proof fn lemma_le_round_trip(word: u32, b0: u8, b1: u8, b2: u8, b3: u8)
    by (bit_vector)
    ensures
        le_word_of(le_byte(word, 0), le_byte(word, 1), le_byte(word, 2), le_byte(word, 3))
            == word,
        le_byte(le_word_of(b0, b1, b2, b3), 0) == b0,
        le_byte(le_word_of(b0, b1, b2, b3), 1) == b1,
        le_byte(le_word_of(b0, b1, b2, b3), 2) == b2,
        le_byte(le_word_of(b0, b1, b2, b3), 3) == b3,
        (word >> 0u32) & 0xFF <= 0xFF,
        (word >> 8u32) & 0xFF <= 0xFF,
        (word >> 16u32) & 0xFF <= 0xFF,
        (word >> 24u32) & 0xFF <= 0xFF,
{
}

/// The little-endian bytes of a word.
pub fn word_to_le_bytes(word: u32) -> (bytes: [u8; 4])
    ensures
        bytes@ == le_bytes(word),
        le_word(bytes@) == word,
{
    proof {
        lemma_le_round_trip(word, 0, 0, 0, 0);
    }
    let bytes = [
        ((word >> 0u32) & 0xFF) as u8,
        ((word >> 8u32) & 0xFF) as u8,
        ((word >> 16u32) & 0xFF) as u8,
        ((word >> 24u32) & 0xFF) as u8,
    ];
    assert(bytes@ =~= le_bytes(word));
    bytes
}

/// The word with the given little-endian bytes.
pub fn word_from_le_bytes(b0: u8, b1: u8, b2: u8, b3: u8) -> (word: u32)
    ensures
        word == le_word_of(b0, b1, b2, b3),
        le_bytes(word) == seq![b0, b1, b2, b3],
{
    proof {
        lemma_le_round_trip(0, b0, b1, b2, b3);
    }
    let word = (b0 as u32) | ((b1 as u32) << 8u32) | ((b2 as u32) << 16u32) | ((b3 as u32)
        << 24u32);
    assert(le_bytes(word) =~= seq![b0, b1, b2, b3]);
    word
}

/// Turning words into bytes and the bytes into words again gives the words.
pub proof fn lemma_words_bytes_words(words: Seq<u32>)
    ensures
        bytes_as_words(words_as_bytes(words)) == words,
{
    let bytes = words_as_bytes(words);
    assert forall|i: int| 0 <= i < words.len() implies #[trigger] bytes_as_words(bytes)[i]
        == words[i] by {
        lemma_le_round_trip(words[i], 0, 0, 0, 0);
        assert(bytes[4 * i] == le_byte(words[i], 0));
        assert(bytes[4 * i + 1] == le_byte(words[i], 1));
        assert(bytes[4 * i + 2] == le_byte(words[i], 2));
        assert(bytes[4 * i + 3] == le_byte(words[i], 3));
    }
    assert(bytes_as_words(bytes) =~= words);
}

/// Turning a whole number of words' bytes into words and the words into bytes again
/// gives the bytes.
pub proof fn lemma_bytes_words_bytes(bytes: Seq<u8>)
    requires
        bytes.len() % 4 == 0,
    ensures
        words_as_bytes(bytes_as_words(bytes)) == bytes,
{
    let words = bytes_as_words(bytes);
    assert forall|k: int| 0 <= k < bytes.len() implies #[trigger] words_as_bytes(words)[k]
        == bytes[k] by {
        let i = k / 4;
        lemma_le_round_trip(0, bytes[4 * i], bytes[4 * i + 1], bytes[4 * i + 2], bytes[4 * i + 3]);
    }
    assert(words_as_bytes(words) =~= bytes);
}

/// The bytes of a slice of words, each word in little-endian order.
pub fn words_to_bytes(words: &[u32]) -> (bytes: Vec<u8>)
    ensures
        bytes@ == words_as_bytes(words@),
{
    let count = words.len();
    let mut bytes: Vec<u8> = Vec::new();
    let mut i: usize = 0;
    while i < count
        invariant
            count == words@.len(),
            i <= count,
            bytes@.len() == 4 * i,
            forall|k: int|
                0 <= k < 4 * i ==> #[trigger] bytes@[k] == le_byte(words@[k / 4], (k % 4) as u32),
        decreases count - i,
    {
        let word = word_to_le_bytes(words[i]);
        bytes.push(word[0]);
        bytes.push(word[1]);
        bytes.push(word[2]);
        bytes.push(word[3]);
        i = i + 1;
    }
    assert(bytes@ =~= words_as_bytes(words@));
    bytes
}

/// The words that a slice of bytes holds, four bytes to a word in little-endian order.
/// Bytes after the last full word are left out.
pub fn words_from_bytes(bytes: &[u8]) -> (words: Vec<u32>)
    ensures
        words@ == bytes_as_words(bytes@),
{
    let count = bytes.len() / 4;
    let mut words: Vec<u32> = Vec::with_capacity(count);
    let mut i: usize = 0;
    while i < count
        invariant
            count == bytes@.len() / 4,
            bytes@.len() <= usize::MAX,
            i <= count,
            words@.len() == i,
            forall|j: int| 0 <= j < i ==> #[trigger] words@[j] == bytes_as_words(bytes@)[j],
        decreases count - i,
    {
        words.push(
            word_from_le_bytes(bytes[4 * i], bytes[4 * i + 1], bytes[4 * i + 2], bytes[4 * i + 3]),
        );
        i = i + 1;
    }
    assert(words@ =~= bytes_as_words(bytes@));
    words
}

/// The 64-bit number with the given little-endian bytes.
pub open spec fn le_u64_of(b0: u8, b1: u8, b2: u8, b3: u8, b4: u8, b5: u8, b6: u8, b7: u8) -> u64 {
    (b0 as u64) | ((b1 as u64) << 8) | ((b2 as u64) << 16) | ((b3 as u64) << 24) | ((b4 as u64)
        << 32) | ((b5 as u64) << 40) | ((b6 as u64) << 48) | ((b7 as u64) << 56)
}

/// The eight bytes of a 64-bit number in little-endian order.
pub open spec fn le_bytes_u64(value: u64) -> Seq<u8> {
    seq![
        le_byte_u64(value, 0),
        le_byte_u64(value, 1),
        le_byte_u64(value, 2),
        le_byte_u64(value, 3),
        le_byte_u64(value, 4),
        le_byte_u64(value, 5),
        le_byte_u64(value, 6),
        le_byte_u64(value, 7),
    ]
}

/// Taking a 64-bit number apart into bytes and putting it together again gives the
/// number.
pub proof fn lemma_le_u64_round_trip(value: u64)
    by (bit_vector)
    ensures
        le_u64_of(
            le_byte_u64(value, 0),
            le_byte_u64(value, 1),
            le_byte_u64(value, 2),
            le_byte_u64(value, 3),
            le_byte_u64(value, 4),
            le_byte_u64(value, 5),
            le_byte_u64(value, 6),
            le_byte_u64(value, 7),
        ) == value,
        (value >> 0u64) & 0xFF <= 0xFF,
        (value >> 8u64) & 0xFF <= 0xFF,
        (value >> 16u64) & 0xFF <= 0xFF,
        (value >> 24u64) & 0xFF <= 0xFF,
        (value >> 32u64) & 0xFF <= 0xFF,
        (value >> 40u64) & 0xFF <= 0xFF,
        (value >> 48u64) & 0xFF <= 0xFF,
        (value >> 56u64) & 0xFF <= 0xFF,
{
}

/// The little-endian bytes of a 64-bit number.
pub fn u64_to_le_bytes(value: u64) -> (bytes: [u8; 8])
    ensures
        bytes@ == le_bytes_u64(value),
        le_u64(bytes@) == value,
{
    proof {
        lemma_le_u64_round_trip(value);
    }
    let bytes = [
        ((value >> 0u64) & 0xFF) as u8,
        ((value >> 8u64) & 0xFF) as u8,
        ((value >> 16u64) & 0xFF) as u8,
        ((value >> 24u64) & 0xFF) as u8,
        ((value >> 32u64) & 0xFF) as u8,
        ((value >> 40u64) & 0xFF) as u8,
        ((value >> 48u64) & 0xFF) as u8,
        ((value >> 56u64) & 0xFF) as u8,
    ];
    assert(bytes@ =~= le_bytes_u64(value));
    bytes
}

/// The 64-bit number whose little-endian bytes are the first eight of `bytes`.
pub fn u64_from_le_bytes(bytes: &[u8]) -> (value: u64)
    requires
        bytes@.len() >= 8,
    ensures
        value == le_u64(bytes@),
{
    (bytes[0] as u64) | ((bytes[1] as u64) << 8u64) | ((bytes[2] as u64) << 16u64) | ((
    bytes[3] as u64) << 24u64) | ((bytes[4] as u64) << 32u64) | ((bytes[5] as u64) << 40u64) | ((
    bytes[6] as u64) << 48u64) | ((bytes[7] as u64) << 56u64)
}

/// Overwrite a buffer of words with the words that a slice of bytes holds, four bytes to
/// a word in little-endian order.
pub fn copy_words_from_bytes(dest: &mut Vec<u32>, bytes: &[u8])
    requires
        bytes@.len() == 4 * old(dest)@.len(),
    ensures
        final(dest)@ == bytes_as_words(bytes@),
{
    let count = bytes.len() / 4;
    let mut i: usize = 0;
    while i < count
        invariant
            count == dest@.len(),
            bytes@.len() == 4 * count,
            bytes@.len() <= usize::MAX,
            i <= count,
            forall|j: int| 0 <= j < i ==> #[trigger] dest@[j] == bytes_as_words(bytes@)[j],
        decreases count - i,
    {
        dest[i] = word_from_le_bytes(
            bytes[4 * i],
            bytes[4 * i + 1],
            bytes[4 * i + 2],
            bytes[4 * i + 3],
        );
        i = i + 1;
    }
    assert(dest@ =~= bytes_as_words(bytes@));
}

} // verus!
