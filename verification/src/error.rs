//! Connection-level errors. Packet-level decrypt failures are not errors at
//! this layer: the offending packet is dropped and the space continues. An
//! `Error` produced by the frame dispatch loop is fatal to the connection and
//! must drive the close sequence.
use vstd::prelude::*;

verus! {

/// The kind of a connection-fatal error.
#[derive(Clone, Copy, PartialEq, Eq, Structural, Debug)]
pub enum ErrorKind {
    /// The peer violated a protocol MUST, e.g. a server received
    /// HandshakeDone, or a space carried a frame type it must not hold.
    ProtocolViolation,
}

/// A connection-fatal error.
#[derive(Clone, Copy, PartialEq, Eq, Structural, Debug)]
pub struct Error {
    pub kind: ErrorKind,
}

impl Error {
    /// The error raised when the peer violates a protocol MUST.
    pub fn protocol_violation() -> (e: Error)
        ensures
            e == (Error { kind: ErrorKind::ProtocolViolation }),
    {
        Error { kind: ErrorKind::ProtocolViolation }
    }
}

/// Failure of the sending layer beneath the core: the datagram could not be
/// written. Not a protocol condition; the sender decides how to recover.
#[derive(Clone, Copy, PartialEq, Eq, Structural, Debug)]
pub struct SendError;

} // verus!
