//! The failures that the framing and link logic reports.

use vstd::prelude::*;

verus! {

/// Why a packet could not be built, parsed or read.
#[derive(Clone, Copy, Debug, PartialEq, Eq)]
pub enum LinkError {
    /// The payload handed to the encoder is longer than a packet can carry.
    PayloadTooLarge,
    /// A datagram does not have the exact length of a frame.
    FrameLengthMismatch,
    /// The payload bytes are not valid UTF-8 text.
    DecodeFailure,
}

} // verus!
