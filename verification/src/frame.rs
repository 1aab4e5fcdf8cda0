//! Frames as the pipelines hand them on. Every space's pipeline classifies
//! each frame of a decoded packet and routes it to one of three sinks: the
//! shared connection-frame queue, the space's own frame queue, or the
//! datagram queue. Which sinks a space offers is fixed by the space.
use vstd::prelude::*;

verus! {

/// A connection-level frame: produced by any space's pipeline, funneled into
/// the one shared connection-frame queue, and consumed exactly once by the
/// dispatch loop.
#[derive(Clone, PartialEq, Eq, Debug)]
pub enum ConnFrame {
    /// The peer closes the connection, giving an error code.
    Close(u64),
    /// A new address-validation token (extension point, unhandled here).
    NewToken(Vec<u8>),
    /// Raises the connection-level send budget by the carried amount.
    MaxData(u64),
    /// A new connection id with its sequence number (extension point).
    NewConnectionId(u64),
    /// Retires the connection id of the carried sequence number (extension
    /// point).
    RetireConnectionId(u64),
    /// The server confirms the handshake; earlier epochs' keys must go.
    HandshakeDone,
    /// The peer is blocked at the carried connection-level limit; no state
    /// changes.
    DataBlocked(u64),
}

/// A frame consumed by the space it arrived in rather than by the
/// connection-frame dispatch loop.
#[derive(Clone, PartialEq, Eq, Debug)]
pub enum SpaceFrame {
    /// A slice of the TLS handshake byte stream.
    Crypto(Vec<u8>),
    /// Stream data: stream id and payload.
    Stream(u64, Vec<u8>),
    /// An acknowledgement, by its largest acknowledged packet number.
    Ack(u64),
}

/// One frame of a decoded packet, tagged by the sink it belongs to.
#[derive(Clone, PartialEq, Eq, Debug)]
pub enum Frame {
    /// Belongs to the shared connection-frame queue.
    Conn(ConnFrame),
    /// Belongs to the space's own frame queue.
    Space(SpaceFrame),
    /// An unreliable datagram for the application; only the data spaces
    /// offer this sink.
    Datagram(Vec<u8>),
}

/// The negotiated transport settings the handshake yields at its final
/// epoch; applied to the data space once obtained.
#[derive(Clone, Copy, PartialEq, Eq, Structural, Debug)]
pub struct TransportParameters {
    pub initial_max_data: u64,
}

} // verus!
