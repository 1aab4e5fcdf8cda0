//! Received packets, as the decrypting pipeline sees them. Wire framing and
//! AEAD are outside this core: a packet here carries its packet number, the
//! frames its protected payload decodes to, and whether its authentication
//! tag checks out under the space's keys. A packet whose tag does not check
//! out fails only that packet, never the connection.
use vstd::prelude::*;
use crate::frame::Frame;

verus! {

/// A raw packet of one packet-number space, as handed to that space's
/// receive queue.
#[derive(Clone, PartialEq, Eq, Debug)]
pub struct Packet {
    /// The packet number, recovered during decryption.
    pub pn: u64,
    /// The frames the protected payload decodes to.
    pub frames: Vec<Frame>,
    /// Whether the authentication tag verifies under the space's keys.
    pub auth_ok: bool,
}

/// A packet of the Initial space.
pub type InitialPacket = Packet;

/// A packet of the Handshake space.
pub type HandshakePacket = Packet;

/// A 0-RTT packet of the data space.
pub type ZeroRttPacket = Packet;

/// A 1-RTT short-header packet of the data space.
pub type OneRttPacket = Packet;

/// The one-bit latency-spin signal of short-header packets; off until spun.
#[derive(Clone, Copy, PartialEq, Eq, Structural, Debug)]
pub enum SpinBit {
    Off,
    On,
}

impl Default for SpinBit {
    /// The spin signal starts out off.
    fn default() -> (s: SpinBit)
        ensures
            s == SpinBit::Off,
    {
        SpinBit::Off
    }
}

} // verus!
