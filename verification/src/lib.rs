//! Codec and transport primitives for the VLBI Data Interchange Format (VDIF), the
//! format in which radio telescopes stream their digitized signals.
//!
//! A VDIF frame is a 32 byte header of eight little-endian 32-bit words followed by a
//! payload of packed samples. Wherever a `frame_size` appears it is the size of the
//! whole frame in bytes, header included, and a multiple of eight.
//!
//! - [`header_masks`], [`decoding`], [`encoding`] and [`header_encoding`] are the header
//!   codec; [`VDIFHeader`] is a header as its eight words.
//! - [`samples`], [`data_encoding`] and the payload parts of [`decoding`] and
//!   [`encoding`] are the payload codec.
//! - [`VDIFFrame`] is a header with its payload; [`parsing`], [`read`], [`io`] and [`net`]
//!   take frames from bytes and datagrams and turn them into bytes again.
//! - [`utils`] holds the queue that hands frames from one thread to another and the
//!   pools of the batched receivers; [`ordering`] drops frames that arrive late.
//!
//! Nothing in this crate reads or writes a file or a socket: it takes and gives bytes.
//! Big-endian machines are served like little-endian ones, for no function looks at
//! the bytes of a word in memory.

pub mod error;
pub mod header_masks;
pub mod samples;
pub mod word_bytes;
pub mod data_encoding;
pub mod header;
pub mod frame;
pub mod payload;
pub mod decoding;
pub mod encoding;
pub mod header_encoding;
pub mod parsing;
pub mod read;
pub mod io;
pub mod sim;
pub mod ordering;
pub mod net;
pub mod utils;

pub use frame::VDIFFrame;
pub use header::VDIFHeader;
pub use io::{read_frame, read_vtp_frame, write_frame, write_vtp_frame};
