//! Datagrams that carry VDIF frames over a network.
//!
//! The functions here turn a datagram into a frame and a frame into a datagram. Sending
//! and receiving is left to whoever holds the socket.

pub mod udp;
pub mod vtp;
