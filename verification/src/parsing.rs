//! Provides functionality for parsing byte slices into various VDIF types.
//!
//! Every function takes the bytes that are still to be parsed and returns, with what it
//! has parsed, the bytes that are left. Words are read with the little-endian number
//! parser of [`nom`].

use vstd::prelude::*;
use crate::error::DataError;
use crate::frame::{declared_bytes, VDIFFrame};
use crate::header_encoding::{decode_w0, decode_w1, decode_w2, decode_w3, HeaderFields};
use crate::header_masks::{field, MASK_SIZE8};
use crate::payload::VDIFPayload;
use crate::word_bytes::{bytes_as_words, le_word, le_word_of};

verus! {

/// The number of words of a header.
pub const VDIF_HEADER_SIZE: usize = 8;

/// The number of bytes of a header.
pub const VDIF_HEADER_BYTESIZE: usize = 32;

/// Reads one little-endian 32-bit number from the front of `input`, by
/// `nom::number::complete::le_u32`.
///
/// That parser fails on an input of fewer than four bytes. On any other input it returns
/// the input without its first four bytes, and the sum of these bytes, byte `i` shifted
/// left by `8 * i` bits. No two of the shifted bytes share a bit, so their sum is the
/// bitwise or that [`le_word`] is.
#[verifier::external_body]
fn le_u32(input: &[u8]) -> (parsed: Option<(&[u8], u32)>)
    ensures
        input@.len() < 4 ==> parsed is None,
        input@.len() >= 4 ==> parsed is Some,
        parsed matches Some((rest, word)) ==> rest@ == input@.subrange(4, input@.len() as int)
            && word == le_word(input@),
{
    match nom::number::complete::le_u32::<&[u8], nom::error::Error<&[u8]>>(input) {
        Ok((rest, word)) => Some((rest, word)),
        Err(_) => None,
    }
}

/// Whether a whole frame starts `bytes`, and if so, how many bytes it has. There is none
/// where the bytes end within the header, where the header declares a frame that has no
/// room for a header, and where the bytes end before the declared size.
pub open spec fn frame_ahead(bytes: Seq<u8>) -> Result<nat, DataError> {
    if bytes.len() < 32 {
        Err(DataError::Truncated)
    } else if declared_bytes(bytes) < 32 {
        Err(DataError::FrameTooSmall)
    } else if bytes.len() < declared_bytes(bytes) {
        Err(DataError::Truncated)
    } else {
        Ok(declared_bytes(bytes))
    }
}

/// The bytes that are left after `count` frames were taken from the front of `bytes`, or
/// what is wrong with the first frame that cannot be taken.
pub open spec fn rest_after(bytes: Seq<u8>, count: nat) -> Result<Seq<u8>, DataError>
    decreases count,
{
    if count == 0 {
        Ok(bytes)
    } else {
        match rest_after(bytes, (count - 1) as nat) {
            Err(e) => Err(e),
            Ok(rest) => match frame_ahead(rest) {
                Err(e) => Err(e),
                Ok(size) => Ok(rest.subrange(size as int, rest.len() as int)),
            },
        }
    }
}

/// The words of frame `index` of the frames that start `bytes`, where there are that
/// many.
pub open spec fn frame_at(bytes: Seq<u8>, index: nat) -> Seq<u32> {
    match rest_after(bytes, index) {
        Err(_) => Seq::empty(),
        Ok(rest) => match frame_ahead(rest) {
            Err(_) => Seq::empty(),
            Ok(size) => bytes_as_words(rest.subrange(0, size as int)),
        },
    }
}

/// Whether `count` whole frames start `bytes`.
pub open spec fn has_frames(bytes: Seq<u8>, count: nat) -> bool {
    rest_after(bytes, count) is Ok
}

/// Read `count` words from the front of `input`.
fn parse_words(input: &[u8], count: usize) -> (parsed: Option<(&[u8], Vec<u32>)>)
    requires
        4 * count <= usize::MAX,
    ensures
        input@.len() < 4 * count ==> parsed is None,
        input@.len() >= 4 * count ==> parsed is Some,
        parsed matches Some((rest, words)) ==> rest@ == input@.subrange(
            4 * count,
            input@.len() as int,
        ) && words@ == bytes_as_words(input@.subrange(0, 4 * count)),
{
    let mut out: Vec<u32> = Vec::with_capacity(count);
    let mut remaining = input;
    let mut i: usize = 0;
    while i < count
        invariant
            i <= count,
            4 * count <= usize::MAX,
            out@.len() == i,
            4 * i <= input@.len(),
            remaining@ == input@.subrange(4 * i, input@.len() as int),
            forall|j: int|
                0 <= j < i ==> #[trigger] out@[j] == le_word_of(
                    input@[4 * j],
                    input@[4 * j + 1],
                    input@[4 * j + 2],
                    input@[4 * j + 3],
                ),
        decreases count - i,
    {
        match le_u32(remaining) {
            None => {
                return None;
            },
            Some((rest, word)) => {
                assert(rest@ =~= input@.subrange(4 * (i + 1), input@.len() as int));
                out.push(word);
                remaining = rest;
            },
        }
        i = i + 1;
    }
    assert(out@ =~= bytes_as_words(input@.subrange(0, 4 * count)));
    Some((remaining, out))
}

/// Parse a header from a byte slice. There is no header in fewer than 32 bytes.
pub fn parse_header(input: &[u8]) -> (parsed: Result<(&[u8], HeaderFields), DataError>)
    ensures
        input@.len() < 32 ==> parsed == Err::<(&[u8], HeaderFields), DataError>(
            DataError::Truncated,
        ),
        input@.len() >= 32 ==> parsed is Ok,
        parsed matches Ok((rest, header)) ==> rest@ == input@.subrange(32, input@.len() as int)
            && header == HeaderFields::decoded(bytes_as_words(input@.subrange(0, 32)))
            && header.in_range(),
{
    match parse_words(input, VDIF_HEADER_SIZE) {
        None => Err(DataError::Truncated),
        Some((remaining, words)) => {
            let (is_valid, is_legacy, time) = decode_w0(words[0]);
            let (epoch, frameno) = decode_w1(words[1]);
            let (version, channels, size) = decode_w2(words[2]);
            let (is_real, bits_per_sample, thread, station) = decode_w3(words[3]);
            Ok(
                (
                    remaining,
                    HeaderFields {
                        is_valid,
                        is_legacy,
                        time,
                        epoch,
                        frameno,
                        version,
                        channels,
                        size,
                        is_real,
                        bits_per_sample,
                        thread,
                        station,
                        edv0: words[4],
                        edv1: words[5],
                        edv2: words[6],
                        edv3: words[7],
                    },
                ),
            )
        },
    }
}

/// Parse a [`VDIFPayload`] from a byte slice. Requires a reference to the associated
/// header to ensure the correct number of bytes are parsed: the payload has the size
/// that the header declares for the frame, less the 32 bytes of the header.
pub fn parse_payload<'a, 'b>(input: &'a [u8], header: &'b HeaderFields) -> (parsed: Result<
    (&'a [u8], VDIFPayload),
    DataError,
>)
    ensures
        header.size < 4 ==> parsed == Err::<(&[u8], VDIFPayload), DataError>(
            DataError::FrameTooSmall,
        ),
        header.size >= 4 && input@.len() < 8 * header.size - 32 ==> parsed == Err::<
            (&[u8], VDIFPayload),
            DataError,
        >(DataError::Truncated),
        header.size >= 4 && input@.len() >= 8 * header.size - 32 ==> parsed is Ok,
        parsed matches Ok((rest, payload)) ==> rest@ == input@.subrange(
            8 * header.size - 32,
            input@.len() as int,
        ) && payload@ == bytes_as_words(input@.subrange(0, 8 * header.size - 32)),
{
    if header.size < 4 {
        return Err(DataError::FrameTooSmall);
    }
    let payload_wordsize: u64 = 2 * (header.size as u64) - 8;
    if (input.len() / 4) as u64 >= payload_wordsize {
        match parse_words(input, payload_wordsize as usize) {
            None => Err(DataError::Truncated),
            Some((remaining, words)) => Ok((remaining, VDIFPayload::from_vec(words))),
        }
    } else {
        Err(DataError::Truncated)
    }
}

/// Parse a [`VDIFFrame`] from a byte slice: the header first, then the payload sized per
/// the header's length field.
pub fn parse_frame(input: &[u8]) -> (parsed: Result<(&[u8], VDIFFrame), DataError>)
    ensures
        parsed is Ok <==> frame_ahead(input@) is Ok,
        parsed matches Err(e) ==> frame_ahead(input@) == Err::<nat, DataError>(e),
        parsed matches Ok((rest, frame)) ==> {
            let size = frame_ahead(input@)->Ok_0 as int;
            &&& rest@ == input@.subrange(size, input@.len() as int)
            &&& frame@ == bytes_as_words(input@.subrange(0, size))
            &&& frame.wf()
        },
{
    match parse_header(input) {
        Err(e) => Err(e),
        Ok((_after_header, header)) => {
            assert(header.size == field(bytes_as_words(input@)[2], MASK_SIZE8, 0)) by {
                assert(bytes_as_words(input@.subrange(0, 32))[2] == bytes_as_words(input@)[2]);
            }
            if header.size < 4 {
                return Err(DataError::FrameTooSmall);
            }
            let wordsize: u32 = 2 * header.size;
            match parse_words(input, wordsize as usize) {
                None => Err(DataError::Truncated),
                Some((remaining, words)) => {
                    Ok((remaining, VDIFFrame::from_slice(words.as_slice())))
                },
            }
        },
    }
}

/// Parse a specific number of [`VDIFFrame`]s from the input byte slice. Where one of
/// them cannot be parsed, what is wrong with it is returned and no frame.
pub fn parse_frames(input: &[u8], numframes: usize) -> (parsed: Result<
    (&[u8], Vec<VDIFFrame>),
    DataError,
>)
    ensures
        parsed is Ok <==> has_frames(input@, numframes as nat),
        parsed matches Err(e) ==> rest_after(input@, numframes as nat) == Err::<
            Seq<u8>,
            DataError,
        >(e),
        parsed matches Ok((rest, frames)) ==> {
            &&& Ok::<Seq<u8>, DataError>(rest@) == rest_after(input@, numframes as nat)
            &&& frames@.len() == numframes
            &&& forall|i: int|
                0 <= i < numframes ==> (#[trigger] frames@[i])@ == frame_at(input@, i as nat)
                    && frames@[i].wf()
        },
{
    let mut frames: Vec<VDIFFrame> = Vec::new();
    let mut remaining = input;
    let mut i: usize = 0;
    while i < numframes
        invariant
            i <= numframes,
            frames@.len() == i,
            rest_after(input@, i as nat) == Ok::<Seq<u8>, DataError>(remaining@),
            forall|j: int|
                0 <= j < i ==> (#[trigger] frames@[j])@ == frame_at(input@, j as nat)
                    && frames@[j].wf(),
        decreases numframes - i,
    {
        match parse_frame(remaining) {
            Err(e) => {
                proof {
                    assert(rest_after(input@, (i + 1) as nat) == Err::<Seq<u8>, DataError>(e));
                    lemma_rest_after_fails(input@, (i + 1) as nat, numframes as nat);
                }
                return Err(e);
            },
            Ok((rest, frame)) => {
                frames.push(frame);
                remaining = rest;
            },
        }
        i = i + 1;
    }
    Ok((remaining, frames))
}

/// Where taking frames from the front of some bytes fails, taking more of them fails in
/// the same way.
pub proof fn lemma_rest_after_fails(bytes: Seq<u8>, count: nat, more: nat)
    requires
        rest_after(bytes, count) is Err,
        count <= more,
    ensures
        rest_after(bytes, more) == rest_after(bytes, count),
    decreases more,
{
    if count < more {
        lemma_rest_after_fails(bytes, count, (more - 1) as nat);
    }
}

/// Parse as many frames as possible from the input: frame after frame is taken from its
/// front until what is left does not start with a whole frame. This never fails; what is
/// left is returned with the frames.
pub fn parse_all_frames(input: &[u8]) -> (parsed: Result<(&[u8], Vec<VDIFFrame>), DataError>)
    ensures
        parsed is Ok,
        parsed matches Ok((rest, frames)) ==> {
            &&& Ok::<Seq<u8>, DataError>(rest@) == rest_after(input@, frames@.len())
            &&& frame_ahead(rest@) is Err
            &&& forall|i: int|
                0 <= i < frames@.len() ==> (#[trigger] frames@[i])@ == frame_at(input@, i as nat)
                    && frames@[i].wf()
        },
{
    let mut frames: Vec<VDIFFrame> = Vec::new();
    let mut remaining = input;
    loop
        invariant
            rest_after(input@, frames@.len()) == Ok::<Seq<u8>, DataError>(remaining@),
            forall|j: int|
                0 <= j < frames@.len() ==> (#[trigger] frames@[j])@ == frame_at(input@, j as nat)
                    && frames@[j].wf(),
        ensures
            rest_after(input@, frames@.len()) == Ok::<Seq<u8>, DataError>(remaining@),
            frame_ahead(remaining@) is Err,
            forall|j: int|
                0 <= j < frames@.len() ==> (#[trigger] frames@[j])@ == frame_at(input@, j as nat)
                    && frames@[j].wf(),
        decreases remaining@.len(),
    {
        match parse_frame(remaining) {
            Err(_) => {
                break ;
            },
            Ok((rest, frame)) => {
                frames.push(frame);
                remaining = rest;
            },
        }
    }
    Ok((remaining, frames))
}

} // verus!
