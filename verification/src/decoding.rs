//! Decoding of VDIF headers and payloads.

pub mod header;
pub mod payload;
