//! How samples lie in a 32-bit payload word.
//!
//! A word holds as many samples of `bits` bits as fit, the oldest in the lowest bits.
//! Sample `i` occupies the bits from `i * bits` upwards; bits above the last sample are
//! not used. Complex samples are stored as pairs: the in-phase part of pair `i` is
//! sample `2 * i`, its quadrature part sample `2 * i + 1`.

use vstd::arithmetic::power2::{lemma_pow2_unfold, pow2};
use vstd::bits::{low_bits_mask, lemma_u32_low_bits_mask_is_mod, lemma_u32_shr_is_div};
use vstd::prelude::*;

verus! {

/// The word whose lowest `bits` bits are set, for `bits` up to 32.
pub open spec fn low_mask(bits: u32) -> u32 {
    if bits >= 32 {
        0xFFFF_FFFFu32
    } else {
        !(0xFFFF_FFFFu32 << bits)
    }
}

/// The `width` bits of `word` from bit `pos` upwards, as a number.
pub open spec fn bits_at(word: u32, pos: u32, width: u32) -> u32 {
    (word >> pos) & low_mask(width)
}

/// Sample `index` of a word of samples that are `bits` bits wide.
pub open spec fn sample(word: u32, index: nat, bits: u32) -> u32 {
    bits_at(word, (index * bits) as u32, bits)
}

/// The in-phase part of complex sample `index` of a word whose parts are `bits` bits wide.
pub open spec fn in_phase_sample(word: u32, index: nat, bits: u32) -> u32 {
    sample(word, 2 * index, bits)
}

/// The quadrature part of complex sample `index` of a word whose parts are `bits` bits
/// wide.
pub open spec fn quadrature_sample(word: u32, index: nat, bits: u32) -> u32 {
    sample(word, 2 * index + 1, bits)
}

/// Whether `word` is the packed form of `samples` at `bits` bits each: sample `i` of the
/// word is `samples[i]` cut to `bits` bits, and every bit above the last sample is zero.
pub open spec fn packs(word: u32, samples: Seq<u32>, bits: u32) -> bool {
    &&& forall|i: int|
        0 <= i < samples.len() ==> sample(word, i as nat, bits) == #[trigger] samples[i] & low_mask(
            bits,
        )
    &&& word & !low_mask((samples.len() * bits) as u32) == 0
}

/// Bytes as the samples that they stand for.
pub open spec fn bytes_as_samples(values: Seq<u8>) -> Seq<u32> {
    Seq::new(values.len(), |i: int| values[i] as u32)
}

/// 16-bit numbers as the samples that they stand for.
pub open spec fn shorts_as_samples(values: Seq<u16>) -> Seq<u32> {
    Seq::new(values.len(), |i: int| values[i] as u32)
}

/// The first `count` samples of a word.
pub open spec fn unpacked(word: u32, bits: u32, count: nat) -> Seq<u32> {
    Seq::new(count, |i: int| sample(word, i as nat, bits))
}

/// The sequence that alternates between the parts of complex samples: in-phase first,
/// then quadrature.
pub open spec fn interleaved(in_phase: Seq<u32>, quadrature: Seq<u32>) -> Seq<u32> {
    Seq::new(
        2 * in_phase.len(),
        |k: int|
            if k % 2 == 0 {
                in_phase[k / 2]
            } else {
                quadrature[k / 2]
            },
    )
}

/// The values of the masks of every width.
pub proof fn lemma_low_mask_values()
    by (bit_vector)
    ensures
        low_mask(0) == 0,
        low_mask(1) == 0x1,
        low_mask(2) == 0x3,
        low_mask(3) == 0x7,
        low_mask(4) == 0xF,
        low_mask(5) == 0x1F,
        low_mask(6) == 0x3F,
        low_mask(7) == 0x7F,
        low_mask(8) == 0xFF,
        low_mask(9) == 0x1FF,
        low_mask(10) == 0x3FF,
        low_mask(11) == 0x7FF,
        low_mask(12) == 0xFFF,
        low_mask(13) == 0x1FFF,
        low_mask(14) == 0x3FFF,
        low_mask(15) == 0x7FFF,
        low_mask(16) == 0xFFFF,
        low_mask(17) == 0x1FFFF,
        low_mask(18) == 0x3FFFF,
        low_mask(19) == 0x7FFFF,
        low_mask(20) == 0xFFFFF,
        low_mask(21) == 0x1FFFFF,
        low_mask(22) == 0x3FFFFF,
        low_mask(23) == 0x7FFFFF,
        low_mask(24) == 0xFFFFFF,
        low_mask(25) == 0x1FFFFFF,
        low_mask(26) == 0x3FFFFFF,
        low_mask(27) == 0x7FFFFFF,
        low_mask(28) == 0xFFFFFFF,
        low_mask(29) == 0x1FFFFFFF,
        low_mask(30) == 0x3FFFFFFF,
        low_mask(31) == 0x7FFFFFFF,
        low_mask(32) == 0xFFFFFFFF,
        0u32 & !low_mask(0) == 0,
{
}

/// A number of `width` bits is below two to the power of `width`.
pub proof fn lemma_bits_at_range(word: u32, pos: u32, width: u32)
    by (bit_vector)
    ensures
        bits_at(word, pos, width) <= low_mask(width),
        width <= 8 ==> bits_at(word, pos, width) <= 0xFF,
        width <= 16 ==> bits_at(word, pos, width) <= 0xFFFF,
        bits_at(word, pos, width) & low_mask(width) == bits_at(word, pos, width),
        bits_at(word, 0, width) == word & low_mask(width),
{
}

/// Placing a value above everything that a word holds: the value can be read back where
/// it was placed, and nothing lies above it.
pub proof fn lemma_place_above(word: u32, value: u32, pos: u32, width: u32, end: u32)
    by (bit_vector)
    requires
        pos + width == end,
        end <= 32,
        word & !low_mask(pos) == 0,
    ensures
        bits_at(word | ((value & low_mask(width)) << pos), pos, width) == value & low_mask(width),
        (word | ((value & low_mask(width)) << pos)) & !low_mask(end) == 0,
{
}

/// Placing a value at `pos` changes no bit below `pos`.
pub proof fn lemma_place_keeps_below(
    word: u32,
    value: u32,
    pos: u32,
    below: u32,
    width: u32,
)
    by (bit_vector)
    requires
        below + width <= pos,
        pos < 32,
    ensures
        bits_at(word | (value << pos), below, width) == bits_at(word, below, width),
{
}

/// Two words agree on their lowest `end` bits when they agree below `pos` and on the
/// `width` bits from `pos` to `end`.
pub proof fn lemma_agree_extend(a: u32, b: u32, pos: u32, width: u32, end: u32)
    by (bit_vector)
    requires
        pos + width == end,
        end <= 32,
        a & low_mask(pos) == b & low_mask(pos),
        bits_at(a, pos, width) == bits_at(b, pos, width),
    ensures
        a & low_mask(end) == b & low_mask(end),
{
}

/// Two words that agree on their lowest `end` bits and have no bit above them are equal.
pub proof fn lemma_agree_all(a: u32, b: u32, end: u32)
    by (bit_vector)
    requires
        a & low_mask(end) == b & low_mask(end),
        a & !low_mask(end) == 0,
        b & !low_mask(end) == 0,
    ensures
        a == b,
{
}

/// Clearing the bits from `end` upwards changes no sample that ends at or below `end`.
pub proof fn lemma_cut_keeps_below(word: u32, pos: u32, width: u32, end: u32)
    by (bit_vector)
    requires
        pos + width <= end,
        end <= 32,
    ensures
        bits_at(word & low_mask(end), pos, width) == bits_at(word, pos, width),
        (word & low_mask(end)) & !low_mask(end) == 0,
{
}

/// The mask of a sample width as the decoders compute it: all ones, shifted right until
/// `bits` of them are left.
pub proof fn lemma_low_mask_by_shift(bits: u32, rest: u32)
    by (bit_vector)
    requires
        1 <= bits <= 32,
        rest == 32 - bits,
    ensures
        0xFFFF_FFFFu32 >> rest == low_mask(bits),
{
}

/// The mask that selects one sample of `bits` bits.
pub fn sample_mask(bits: u32) -> (mask: u32)
    requires
        1 <= bits <= 32,
    ensures
        mask == low_mask(bits),
{
    let rest: u32 = 32 - bits;
    proof {
        lemma_low_mask_by_shift(bits, rest);
    }
    u32::MAX >> rest
}

/// Unpack the `N` samples of `bits` bits that a word holds, oldest first, into bytes.
pub fn unpack_u8<const N: usize>(word: u32, bits: u32) -> (out: [u8; N])
    requires
        1 <= bits <= 8,
        N * bits <= 32,
    ensures
        forall|i: int|
            0 <= i < N ==> #[trigger] out[i] as u32 == sample(word, i as nat, bits) && out[i]
                <= low_mask(bits),
{
    let mask = sample_mask(bits);
    let mut out: [u8; N] = [0u8; N];
    let mut pos: u32 = 0;
    let mut i: usize = 0;
    while i < N
        invariant
            1 <= bits <= 8,
            N * bits <= 32,
            mask == low_mask(bits),
            i <= N,
            pos == i * bits,
            forall|j: int|
                0 <= j < i ==> #[trigger] out[j] as u32 == sample(word, j as nat, bits) && out[j]
                    <= low_mask(bits),
        decreases N - i,
    {
        assert(pos + bits <= 32 && (i + 1) * bits == pos + bits) by (nonlinear_arith)
            requires
                i < N,
                N * bits <= 32,
                pos == i * bits,
        ;
        proof {
            lemma_bits_at_range(word, pos, bits);
        }
        out[i] = ((word >> pos) & mask) as u8;
        pos = pos + bits;
        i = i + 1;
    }
    out
}

/// Unpack the `N` samples of `bits` bits that a word holds, oldest first, into 16-bit
/// numbers.
pub fn unpack_u16<const N: usize>(word: u32, bits: u32) -> (out: [u16; N])
    requires
        1 <= bits <= 16,
        N * bits <= 32,
    ensures
        forall|i: int|
            0 <= i < N ==> #[trigger] out[i] as u32 == sample(word, i as nat, bits) && out[i]
                <= low_mask(bits),
{
    let mask = sample_mask(bits);
    let mut out: [u16; N] = [0u16; N];
    let mut pos: u32 = 0;
    let mut i: usize = 0;
    while i < N
        invariant
            1 <= bits <= 16,
            N * bits <= 32,
            mask == low_mask(bits),
            i <= N,
            pos == i * bits,
            forall|j: int|
                0 <= j < i ==> #[trigger] out[j] as u32 == sample(word, j as nat, bits) && out[j]
                    <= low_mask(bits),
        decreases N - i,
    {
        assert(pos + bits <= 32 && (i + 1) * bits == pos + bits) by (nonlinear_arith)
            requires
                i < N,
                N * bits <= 32,
                pos == i * bits,
        ;
        proof {
            lemma_bits_at_range(word, pos, bits);
        }
        out[i] = ((word >> pos) & mask) as u16;
        pos = pos + bits;
        i = i + 1;
    }
    out
}

/// Unpack the `N` complex samples of `bits` bits per part that a word holds, oldest
/// first, into the bytes of their in-phase parts and the bytes of their quadrature parts.
pub fn unpack_pairs_u8<const N: usize>(word: u32, bits: u32) -> (out: ([u8; N], [u8; N]))
    requires
        1 <= bits <= 8,
        2 * N * bits <= 32,
    ensures
        forall|i: int|
            0 <= i < N ==> #[trigger] out.0[i] as u32 == in_phase_sample(word, i as nat, bits)
                && out.0[i] <= low_mask(bits),
        forall|i: int|
            0 <= i < N ==> #[trigger] out.1[i] as u32 == quadrature_sample(word, i as nat, bits)
                && out.1[i] <= low_mask(bits),
{
    let mask = sample_mask(bits);
    let mut in_phase: [u8; N] = [0u8; N];
    let mut quadrature: [u8; N] = [0u8; N];
    let mut pos: u32 = 0;
    let mut i: usize = 0;
    while i < N
        invariant
            1 <= bits <= 8,
            2 * N * bits <= 32,
            mask == low_mask(bits),
            i <= N,
            pos == i * (2 * bits),
            forall|j: int|
                0 <= j < i ==> #[trigger] in_phase[j] as u32 == in_phase_sample(
                    word,
                    j as nat,
                    bits,
                ) && in_phase[j] <= low_mask(bits),
            forall|j: int|
                0 <= j < i ==> #[trigger] quadrature[j] as u32 == quadrature_sample(
                    word,
                    j as nat,
                    bits,
                ) && quadrature[j] <= low_mask(bits),
        decreases N - i,
    {
        assert(pos + 2 * bits <= 32 && (2 * i) * bits == pos && (2 * i + 1) * bits == pos + bits
            && (i + 1) * (2 * bits) == pos + 2 * bits) by (nonlinear_arith)
            requires
                i < N,
                2 * N * bits <= 32,
                pos == i * (2 * bits),
        ;
        proof {
            lemma_bits_at_range(word, pos, bits);
            lemma_bits_at_range(word, (pos + bits) as u32, bits);
        }
        assert(bits_at(word, pos, bits) == in_phase_sample(word, i as nat, bits));
        assert(bits_at(word, (pos + bits) as u32, bits) == quadrature_sample(
            word,
            i as nat,
            bits,
        ));
        in_phase[i] = ((word >> pos) & mask) as u8;
        quadrature[i] = ((word >> (pos + bits)) & mask) as u8;
        pos = pos + 2 * bits;
        i = i + 1;
    }
    (in_phase, quadrature)
}

/// Pack `N` bytes into a word as samples of `bits` bits, the first in the lowest bits.
/// Each byte is cut to `bits` bits.
pub fn pack_u8<const N: usize>(input: &[u8; N], bits: u32) -> (word: u32)
    requires
        1 <= bits <= 8,
        N * bits <= 32,
    ensures
        packs(word, bytes_as_samples(input@), bits),
{
    let mask = sample_mask(bits);
    let mut word: u32 = 0;
    let mut pos: u32 = 0;
    let mut i: usize = 0;
    proof {
        lemma_low_mask_values();
    }
    while i < N
        invariant
            1 <= bits <= 8,
            N * bits <= 32,
            mask == low_mask(bits),
            i <= N,
            pos == i * bits,
            forall|j: int|
                0 <= j < i ==> sample(word, j as nat, bits) == #[trigger] input[j] as u32 & mask,
            word & !low_mask(pos) == 0,
        decreases N - i,
    {
        assert(pos + bits <= 32 && (i + 1) * bits == pos + bits) by (nonlinear_arith)
            requires
                i < N,
                N * bits <= 32,
                pos == i * bits,
        ;
        let value = (input[i] as u32) & mask;
        let ghost before = word;
        word = word | (value << pos);
        proof {
            lemma_place_above(before, input[i as int] as u32, pos, bits, (pos + bits) as u32);
            assert forall|j: int| 0 <= j < i implies sample(word, j as nat, bits)
                == #[trigger] input[j] as u32 & mask by {
                assert(j * bits + bits <= pos) by (nonlinear_arith)
                    requires
                        0 <= j < i,
                        pos == i * bits,
                ;
                lemma_place_keeps_below(before, value, pos, (j * bits) as u32, bits);
            }
        }
        pos = pos + bits;
        i = i + 1;
    }
    word
}

/// Pack `N` 16-bit numbers into a word as samples of `bits` bits, the first in the lowest
/// bits. Each number is cut to `bits` bits.
pub fn pack_u16<const N: usize>(input: &[u16; N], bits: u32) -> (word: u32)
    requires
        1 <= bits <= 16,
        N * bits <= 32,
    ensures
        packs(word, shorts_as_samples(input@), bits),
{
    let mask = sample_mask(bits);
    let mut word: u32 = 0;
    let mut pos: u32 = 0;
    let mut i: usize = 0;
    proof {
        lemma_low_mask_values();
    }
    while i < N
        invariant
            1 <= bits <= 16,
            N * bits <= 32,
            mask == low_mask(bits),
            i <= N,
            pos == i * bits,
            forall|j: int|
                0 <= j < i ==> sample(word, j as nat, bits) == #[trigger] input[j] as u32 & mask,
            word & !low_mask(pos) == 0,
        decreases N - i,
    {
        assert(pos + bits <= 32 && (i + 1) * bits == pos + bits) by (nonlinear_arith)
            requires
                i < N,
                N * bits <= 32,
                pos == i * bits,
        ;
        let value = (input[i] as u32) & mask;
        let ghost before = word;
        word = word | (value << pos);
        proof {
            lemma_place_above(before, input[i as int] as u32, pos, bits, (pos + bits) as u32);
            assert forall|j: int| 0 <= j < i implies sample(word, j as nat, bits)
                == #[trigger] input[j] as u32 & mask by {
                assert(j * bits + bits <= pos) by (nonlinear_arith)
                    requires
                        0 <= j < i,
                        pos == i * bits,
                ;
                lemma_place_keeps_below(before, value, pos, (j * bits) as u32, bits);
            }
        }
        pos = pos + bits;
        i = i + 1;
    }
    word
}

/// Pack `N` complex samples into a word at `bits` bits per part: pair after pair, the
/// in-phase part below the quadrature part, the first pair in the lowest bits. Each byte
/// is cut to `bits` bits.
pub fn pack_pairs_u8<const N: usize>(in_phase: &[u8; N], quadrature: &[u8; N], bits: u32) -> (word:
    u32)
    requires
        1 <= bits <= 8,
        2 * N * bits <= 32,
    ensures
        packs(
            word,
            interleaved(bytes_as_samples(in_phase@), bytes_as_samples(quadrature@)),
            bits,
        ),
{
    let mask = sample_mask(bits);
    let ghost parts = interleaved(bytes_as_samples(in_phase@), bytes_as_samples(quadrature@));
    let mut word: u32 = 0;
    let mut pos: u32 = 0;
    let mut i: usize = 0;
    proof {
        lemma_low_mask_values();
    }
    while i < N
        invariant
            1 <= bits <= 8,
            2 * N * bits <= 32,
            mask == low_mask(bits),
            parts == interleaved(bytes_as_samples(in_phase@), bytes_as_samples(quadrature@)),
            i <= N,
            pos == i * (2 * bits),
            forall|k: int|
                0 <= k < 2 * i ==> sample(word, k as nat, bits) == #[trigger] parts[k] & mask,
            word & !low_mask(pos) == 0,
        decreases N - i,
    {
        assert(pos + 2 * bits <= 32 && (2 * i) * bits == pos && (2 * i + 1) * bits == pos + bits
            && (i + 1) * (2 * bits) == pos + 2 * bits) by (nonlinear_arith)
            requires
                i < N,
                2 * N * bits <= 32,
                pos == i * (2 * bits),
        ;
        let first = (in_phase[i] as u32) & mask;
        let second = (quadrature[i] as u32) & mask;
        let ghost before = word;
        let half = word | (first << pos);
        word = half | (second << (pos + bits));
        proof {
            let mid = (pos + bits) as u32;
            lemma_place_above(before, in_phase[i as int] as u32, pos, bits, mid);
            lemma_place_above(half, quadrature[i as int] as u32, mid, bits, (mid + bits) as u32);
            lemma_place_keeps_below(half, second, mid, pos, bits);
            assert(parts[2 * i] == in_phase[i as int] as u32);
            assert(parts[2 * i + 1] == quadrature[i as int] as u32);
            assert forall|k: int| 0 <= k < 2 * (i + 1) implies sample(word, k as nat, bits)
                == #[trigger] parts[k] & mask by {
                if k < 2 * i {
                    assert(k * bits + bits <= pos) by (nonlinear_arith)
                        requires
                            0 <= k < 2 * i,
                            pos == (2 * i) * bits,
                    ;
                    lemma_place_keeps_below(before, first, pos, (k * bits) as u32, bits);
                    lemma_place_keeps_below(half, second, mid, (k * bits) as u32, bits);
                }
            }
        }
        pos = pos + 2 * bits;
        i = i + 1;
    }
    assert((2 * N) * bits == N * (2 * bits)) by (nonlinear_arith);
    word
}

/// A word is determined by its samples: two words that pack the same samples at the same
/// width are equal.
pub proof fn lemma_packing_unique(a: u32, b: u32, samples: Seq<u32>, bits: u32)
    requires
        1 <= bits,
        samples.len() * bits <= 32,
        packs(a, samples, bits),
        packs(b, samples, bits),
    ensures
        a == b,
{
    lemma_agree_upto(a, b, samples, bits, samples.len());
    lemma_agree_all(a, b, (samples.len() * bits) as u32);
}

/// Two words that pack the same samples agree on the bits of the first `count` samples.
proof fn lemma_agree_upto(a: u32, b: u32, samples: Seq<u32>, bits: u32, count: nat)
    requires
        1 <= bits,
        samples.len() * bits <= 32,
        count <= samples.len(),
        packs(a, samples, bits),
        packs(b, samples, bits),
    ensures
        a & low_mask((count * bits) as u32) == b & low_mask((count * bits) as u32),
    decreases count,
{
    if count == 0 {
        assert(0 * bits == 0) by (nonlinear_arith);
        lemma_zero_mask(a, b);
    } else {
        let last = (count - 1) as nat;
        lemma_agree_upto(a, b, samples, bits, last);
        assert(last * bits + bits == count * bits && count * bits <= 32) by (nonlinear_arith)
            requires
                last + 1 == count,
                count <= samples.len(),
                samples.len() * bits <= 32,
                1 <= bits,
        ;
        assert(sample(a, last, bits) == samples[last as int] & low_mask(bits));
        assert(sample(b, last, bits) == samples[last as int] & low_mask(bits));
        lemma_agree_extend(a, b, (last * bits) as u32, bits, (count * bits) as u32);
    }
}

/// No two words differ on their lowest zero bits.
proof fn lemma_zero_mask(a: u32, b: u32)
    by (bit_vector)
    ensures
        a & low_mask(0) == b & low_mask(0),
{
}

/// Unpacking a word and packing the samples again gives the word with every bit above
/// the last sample cleared: for `count` samples of `bits` bits, the lowest `count * bits`
/// bits of the word.
pub proof fn lemma_unpacked_packs(word: u32, bits: u32, count: nat)
    requires
        1 <= bits,
        count * bits <= 32,
    ensures
        packs(word & low_mask((count * bits) as u32), unpacked(word, bits, count), bits),
{
    let end = (count * bits) as u32;
    let cut = word & low_mask(end);
    let samples = unpacked(word, bits, count);
    assert forall|i: int| 0 <= i < samples.len() implies sample(cut, i as nat, bits)
        == #[trigger] samples[i] & low_mask(bits) by {
        assert(i * bits + bits <= count * bits) by (nonlinear_arith)
            requires
                0 <= i < count,
                1 <= bits,
        ;
        lemma_cut_keeps_below(word, (i * bits) as u32, bits, end);
        lemma_bits_at_range(word, (i * bits) as u32, bits);
    }
    lemma_cut_keeps_below(word, 0, 0, end);
}

/// Payload round trip for real samples: packing the samples that were unpacked from a
/// word gives the word back, cut to the bits that the samples occupy. With `count` samples
/// of `bits` bits those are the lowest `count * bits` bits.
pub proof fn lemma_real_round_trip(word: u32, samples: Seq<u32>, packed: u32, bits: u32)
    requires
        1 <= bits,
        samples.len() * bits <= 32,
        forall|i: int|
            0 <= i < samples.len() ==> #[trigger] samples[i] == sample(word, i as nat, bits),
        packs(packed, samples, bits),
    ensures
        packed == word & low_mask((samples.len() * bits) as u32),
{
    assert(samples =~= unpacked(word, bits, samples.len()));
    lemma_unpacked_packs(word, bits, samples.len());
    lemma_packing_unique(packed, word & low_mask((samples.len() * bits) as u32), samples, bits);
}

/// Payload round trip for complex samples: packing the in-phase and quadrature parts that
/// were unpacked from a word gives the word back, cut to the bits that the pairs occupy.
/// With `count` pairs of `bits` bits per part those are the lowest `2 * count * bits` bits;
/// a sample that is left over above the last pair is not kept.
pub proof fn lemma_complex_round_trip(
    word: u32,
    in_phase: Seq<u32>,
    quadrature: Seq<u32>,
    packed: u32,
    bits: u32,
)
    requires
        1 <= bits,
        in_phase.len() == quadrature.len(),
        2 * in_phase.len() * bits <= 32,
        forall|i: int|
            0 <= i < in_phase.len() ==> #[trigger] in_phase[i] == in_phase_sample(
                word,
                i as nat,
                bits,
            ),
        forall|i: int|
            0 <= i < quadrature.len() ==> #[trigger] quadrature[i] == quadrature_sample(
                word,
                i as nat,
                bits,
            ),
        packs(packed, interleaved(in_phase, quadrature), bits),
    ensures
        packed == word & low_mask((2 * in_phase.len() * bits) as u32),
{
    let parts = interleaved(in_phase, quadrature);
    assert forall|k: int| 0 <= k < parts.len() implies #[trigger] parts[k] == sample(
        word,
        k as nat,
        bits,
    ) by {
        if k % 2 == 0 {
            assert(parts[k] == in_phase[k / 2]);
            assert(2 * (k / 2) == k);
        } else {
            assert(parts[k] == quadrature[k / 2]);
            assert(2 * (k / 2) + 1 == k);
        }
    }
    lemma_real_round_trip(word, parts, packed, bits);
}

/// Unpacking a packed word gives the samples back, each cut to `bits` bits.
pub proof fn lemma_unpack_packed(word: u32, samples: Seq<u32>, bits: u32)
    requires
        packs(word, samples, bits),
    ensures
        unpacked(word, bits, samples.len()) == Seq::new(
            samples.len(),
            |i: int| samples[i] & low_mask(bits),
        ),
{
    assert(unpacked(word, bits, samples.len()) =~= Seq::new(
        samples.len(),
        |i: int| samples[i] & low_mask(bits),
    ));
}

/// A value cut to `bits` bits is the packed form of that one sample.
pub proof fn lemma_single_sample(value: u32, bits: u32)
    requires
        1 <= bits <= 32,
    ensures
        packs(value & low_mask(bits), seq![value], bits),
{
    lemma_single_sample_bits(value, bits);
    assert(0 * bits == 0 && 1 * bits == bits) by (nonlinear_arith);
    assert(seq![value].len() == 1);
    assert(seq![value][0] == value);
}

/// A value cut to `bits` bits reads as itself from bit 0 and has no bit above.
proof fn lemma_single_sample_bits(value: u32, bits: u32)
    by (bit_vector)
    requires
        1 <= bits <= 32,
    ensures
        bits_at(value & low_mask(bits), 0, bits) == value & low_mask(bits),
        (value & low_mask(bits)) & !low_mask(bits) == 0,
{
}

/// A mask of one bit more is twice the mask and one.
proof fn lemma_low_mask_grows(bits: u32, more: u32)
    by (bit_vector)
    requires
        bits < 32,
        more == bits + 1,
    ensures
        low_mask(more) == 2 * low_mask(bits) + 1,
        low_mask(0) == 0,
{
}

/// The mask of `bits` bits is the number before two to the power of `bits`.
pub proof fn lemma_low_mask_is_pow2_less_one(bits: u32)
    requires
        bits <= 32,
    ensures
        low_mask(bits) == pow2(bits as nat) - 1,
        low_mask(bits) == low_bits_mask(bits as nat),
    decreases bits,
{
    if bits == 0 {
        lemma_low_mask_grows(0, 1);
        assert(pow2(0) == 1) by {
            vstd::arithmetic::power2::lemma2_to64();
        }
    } else {
        let less = (bits - 1) as u32;
        lemma_low_mask_is_pow2_less_one(less);
        lemma_low_mask_grows(less, bits);
        lemma_pow2_unfold(bits as nat);
    }
}

/// The whole of a word is the word.
proof fn lemma_all_bits(word: u32)
    by (bit_vector)
    ensures
        word & 0xFFFF_FFFFu32 == word,
        word >> 0u32 == word,
{
}

/// The bits of a word as a number in base two: the `width` bits from bit `pos` upwards
/// are the word divided by two to the power of `pos`, modulo two to the power of `width`.
pub proof fn lemma_bits_at_is_digit(word: u32, pos: u32, width: u32)
    requires
        pos < 32,
        width <= 32,
    ensures
        bits_at(word, pos, width) == (word as nat / pow2(pos as nat)) % pow2(width as nat),
{
    let shifted = word >> pos;
    lemma_u32_shr_is_div(word, pos);
    lemma_low_mask_is_pow2_less_one(width);
    if width < 32 {
        lemma_u32_low_bits_mask_is_mod(shifted, width as nat);
        vstd::bits::lemma_u32_pow2_no_overflow(width as nat);
    } else {
        lemma_all_bits(shifted);
        vstd::arithmetic::power2::lemma2_to64();
        assert(pow2(32) == 0x1_0000_0000);
        assert(shifted as nat % 0x1_0000_0000 == shifted as nat);
    }
}

/// A sample as a digit of the word: sample `index` of a word of samples that are `bits`
/// bits wide is the word divided by two to the power of `index * bits`, modulo two to the
/// power of `bits`.
pub proof fn lemma_sample_is_digit(word: u32, index: nat, bits: u32)
    requires
        1 <= bits,
        (index + 1) * bits <= 32,
    ensures
        sample(word, index, bits) == (word as nat / pow2((index * bits) as nat)) % pow2(
            bits as nat,
        ),
{
    assert(index * bits < 32 && bits <= 32) by (nonlinear_arith)
        requires
            1 <= bits,
            (index + 1) * bits <= 32,
    ;
    lemma_bits_at_is_digit(word, (index * bits) as u32, bits);
}

} // verus!
