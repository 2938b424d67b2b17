//! Error taxonomy of the protocol engine.
//!
//! Transport failures and malformed frames are connection-fatal; clipboard
//! sequencing anomalies are handled locally and never surface here.

use vstd::prelude::*;

verus! {

/// A failure while decoding or encoding one frame.
#[derive(Clone, Copy, Debug, PartialEq, Eq, Structural)]
pub enum PacketError {
    /// The underlying transport failed.
    IoError,
    /// A field did not match the format the wire layout demands.
    FormatError,
    /// The stream ended before a fixed-width field was complete.
    InsufficientDataError,
    /// The declared frame size is smaller than the mandatory 4-byte tag.
    PacketTooSmall,
}

/// A failure of one connection attempt.
#[derive(Clone, Copy, Debug, PartialEq, Eq, Structural)]
pub enum ConnectionError {
    /// Establishing or using the stream socket failed.
    TcpError,
    /// The peer sent data the protocol does not allow.
    ProtocolError(PacketError),
}

} // verus!
