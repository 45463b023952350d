//! Fixed-size datagram framing and a simulated lossy link.
//!
//! A [`packet::Packet`] is one identifier byte followed by a zero-padded
//! payload, and travels as a frame of exactly [`packet::FRAME_LEN`] bytes.

pub mod error;
pub mod loss;
pub mod packet;
pub mod sender;
