//! The connection-level state machine: `Active` while the handshake runs or
//! after it is confirmed, `Draining` once a close has been observed. The
//! transition `Active -> Draining` is one-way; teardown is implicit after
//! draining. Every pipeline reads this state to decide whether to keep
//! accepting application-level work.
use vstd::prelude::*;

verus! {

/// The connection-level state.
#[derive(Clone, Copy, PartialEq, Eq, Structural, Debug)]
pub enum ConnectionState {
    /// Handshake in progress or confirmed; normal operation.
    Active,
    /// A close was observed; the connection only waits out its drain period.
    Draining,
}

} // verus!
