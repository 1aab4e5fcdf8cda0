//! The connection-level flow controller: the send and receive byte budgets.
//! The dispatch loop raises the send budget on every MaxData frame; the
//! budget never decreases on that path.
use vstd::prelude::*;

verus! {

/// Connection-level send/receive byte budgets.
#[derive(Clone, Copy, PartialEq, Eq, Structural, Debug)]
pub struct FlowController {
    /// How many bytes the connection is permitted to send in total.
    pub send_budget: u64,
    /// How many bytes the connection has offered to receive in total.
    pub recv_budget: u64,
}

/// The controller after a permit of `n` more send bytes: the budget grows by
/// exactly `n`, clamped at the largest representable budget.
pub open spec fn permitted(f: FlowController, n: u64) -> FlowController {
    FlowController {
        send_budget: if f.send_budget + n <= u64::MAX {
            (f.send_budget + n) as u64
        } else {
            u64::MAX
        },
        recv_budget: f.recv_budget,
    }
}

impl FlowController {
    /// A controller with the given initial budgets.
    pub fn with_initial(send_budget: u64, recv_budget: u64) -> (f: FlowController)
        ensures
            f == (FlowController { send_budget, recv_budget }),
    {
        FlowController { send_budget, recv_budget }
    }

    /// Permit `n` more bytes to be sent. Safe under any budget: the budget
    /// saturates rather than wraps.
    pub fn permit(&mut self, n: u64)
        ensures
            *final(self) == permitted(*old(self), n),
    {
        self.send_budget = if self.send_budget <= u64::MAX - n {
            self.send_budget + n
        } else {
            u64::MAX
        };
    }
}

/// A permit of `n` raises the send budget by exactly `n` whenever that fits
/// in the budget's type, and in every case never lowers it.
pub proof fn lemma_permit_exact_and_monotonic(f: FlowController, n: u64)
    ensures
        f.send_budget + n <= u64::MAX ==> permitted(f, n).send_budget == f.send_budget + n,
        permitted(f, n).send_budget >= f.send_budget,
        permitted(f, n).recv_budget == f.recv_budget,
{
}

} // verus!
