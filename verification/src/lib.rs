//! Connection-establishment and packet-space orchestration core of a QUIC
//! transport: the four packet-number spaces, the key epochs that gate them,
//! the per-space packet pipelines, path bookkeeping, and the connection-level
//! frame dispatch state machine.
use vstd::prelude::*;

pub mod connection;
pub mod controller;
pub mod error;
pub mod frame;
pub mod keys;
pub mod lifecycle;
pub mod packet;
pub mod path;
pub mod pipeline;
pub mod space;
pub mod state;

verus! {

/// The narrowest contract a sending layer must satisfy: write a datagram to a
/// destination, reporting how many bytes were accepted. Batched or vectored
/// sending is a future extension, not required by the core.
pub trait Sendmsg {
    fn sendmsg(&mut self, msg: &[u8], dest: crate::path::NetAddr) -> (r: Result<
        usize,
        crate::error::SendError,
    >)
        ensures
            r matches Ok(n) ==> n <= msg@.len(),
    ;
}

} // verus!
