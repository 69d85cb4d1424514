//! A collection of utilities for building applications based on the VDIF data format.

pub mod buffer;
pub mod cursor;
pub mod ring;
pub mod udpsockbuf;
pub mod vtpsockbuf;

pub use buffer::{VDIFConsumer, VDIFProducer, VDIFFIFO};
pub use ring::FrameRing;
pub use udpsockbuf::UDPSocketBuf;
pub use vtpsockbuf::VTPSocketBuf;
