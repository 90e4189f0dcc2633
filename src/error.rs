//! Errors of the control protocol and of the data streams.

use vstd::prelude::*;

verus! {

/// What went wrong on a connection.
#[derive(Debug, Clone, Copy, PartialEq, Eq, Structural)]
pub enum SpeedError {
    /// Connecting, binding or accepting failed.
    Connection,
    /// No sentinel byte within the lookahead window.
    Framing,
    /// The payload of a frame is not a valid message.
    Decode,
    /// A message arrived that the current state does not accept.
    ProtocolViolation,
    /// A data stream announced a test id that the server never handed out.
    UnknownTest(u32),
    /// A read or write failed mid-stream.
    Io,
    /// The peer closed the connection.
    ConnectionClosed,
    /// Every test id has been handed out.
    TestIdsExhausted,
}

} // verus!
