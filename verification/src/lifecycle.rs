//! The lifecycle view of a connection: its role, connection state, the four
//! key epochs, and which early spaces still accept packets. Every operation
//! of the core maps to one lifecycle step, and the laws here hold over
//! arbitrary sequences of such steps: a discarded space never comes back, a
//! draining connection never returns to activity, the 1-RTT epoch is never
//! discarded, and confirming the handshake twice is the same as confirming
//! it once.
use vstd::prelude::*;
use crate::connection::{
    dispatch_post, dispatch_result, handshake_done_spec, DispatchOutcome, Epoch, RawConnection,
    Role,
};
use crate::controller::permitted;
use crate::error::{Error, ErrorKind};
use crate::frame::ConnFrame;
use crate::keys::{invalidated, made_ready, KeyContainer, KeyState};
use crate::state::ConnectionState;

verus! {

/// What the lifecycle sees of a connection.
pub struct Lifecycle {
    pub role: Role,
    pub state: ConnectionState,
    pub initial_keys: KeyContainer,
    pub handshake_keys: KeyContainer,
    pub zero_rtt_keys: KeyContainer,
    pub one_rtt_keys: KeyContainer,
    pub init_active: bool,
    pub hs_active: bool,
    pub zero_rtt_active: bool,
}

/// The lifecycle view of a connection core.
pub open spec fn lifecycle_of(c: RawConnection) -> Lifecycle {
    Lifecycle {
        role: c.role,
        state: c.state,
        initial_keys: c.initial_keys,
        handshake_keys: c.handshake_keys,
        zero_rtt_keys: c.zero_rtt_keys,
        one_rtt_keys: c.one_rtt_keys,
        init_active: c.init_pkt_queue.is_active(),
        hs_active: c.hs_pkt_queue.is_active(),
        zero_rtt_active: c.zero_rtt_pkt_queue.is_active(),
    }
}

/// One operation of the connection core, as far as the lifecycle sees it.
pub enum Op {
    GetPath,
    RecvInitial,
    RecvHandshake,
    RecvZeroRtt,
    RecvOneRtt,
    ProcessInitial,
    ProcessHandshake,
    ProcessZeroRtt,
    ProcessOneRtt,
    KeysReady(Epoch),
    CompleteHandshake,
    Dispatch(ConnFrame),
}

/// The lifecycle after the handshake is confirmed: the three early epochs
/// invalidated and their spaces closed; 1-RTT untouched.
pub open spec fn epochs_discarded(l: Lifecycle) -> Lifecycle {
    Lifecycle {
        initial_keys: invalidated(),
        handshake_keys: invalidated(),
        zero_rtt_keys: invalidated(),
        init_active: false,
        hs_active: false,
        zero_rtt_active: false,
        ..l
    }
}

/// How one operation of the core moves the lifecycle. Receiving, path
/// resolution and pipeline steps never touch it; only key arrival, the
/// handshake's completion, a Close and a client's HandshakeDone do.
pub open spec fn lifecycle_step(l: Lifecycle, op: Op) -> Lifecycle {
    match op {
        Op::KeysReady(Epoch::Initial) => Lifecycle {
            initial_keys: made_ready(l.initial_keys),
            ..l
        },
        Op::KeysReady(Epoch::Handshake) => Lifecycle {
            handshake_keys: made_ready(l.handshake_keys),
            ..l
        },
        Op::KeysReady(Epoch::ZeroRtt) => Lifecycle {
            zero_rtt_keys: made_ready(l.zero_rtt_keys),
            ..l
        },
        Op::KeysReady(Epoch::OneRtt) => Lifecycle { one_rtt_keys: made_ready(l.one_rtt_keys), ..l },
        Op::CompleteHandshake => {
            let l1 = Lifecycle { one_rtt_keys: made_ready(l.one_rtt_keys), ..l };
            if l.role == Role::Server {
                epochs_discarded(l1)
            } else {
                l1
            }
        },
        Op::Dispatch(ConnFrame::Close(_)) => Lifecycle { state: ConnectionState::Draining, ..l },
        Op::Dispatch(ConnFrame::HandshakeDone) => if l.role == Role::Client {
            epochs_discarded(l)
        } else {
            l
        },
        _ => l,
    }
}

/// The lifecycle after a whole sequence of operations, first one first.
pub open spec fn apply_ops(l: Lifecycle, ops: Seq<Op>) -> Lifecycle
    decreases ops.len(),
{
    if ops.len() == 0 {
        l
    } else {
        apply_ops(lifecycle_step(l, ops.first()), ops.drop_first())
    }
}

/// No single operation resurrects a discarded space or its keys, and none
/// invalidates the 1-RTT keys.
pub proof fn lemma_step_preserves_discard(l: Lifecycle, op: Op)
    ensures
        !l.init_active ==> !lifecycle_step(l, op).init_active,
        !l.hs_active ==> !lifecycle_step(l, op).hs_active,
        !l.zero_rtt_active ==> !lifecycle_step(l, op).zero_rtt_active,
        l.initial_keys == invalidated() ==> lifecycle_step(l, op).initial_keys == invalidated(),
        l.handshake_keys == invalidated() ==> lifecycle_step(l, op).handshake_keys == invalidated(),
        l.zero_rtt_keys == invalidated() ==> lifecycle_step(l, op).zero_rtt_keys == invalidated(),
        l.one_rtt_keys.state != KeyState::Invalid ==> lifecycle_step(l, op).one_rtt_keys.state
            != KeyState::Invalid,
{
}

/// Space discard is permanent: once a space's queue is inactive or its keys
/// invalidated, no sequence of operations of the core — receives, pipeline
/// steps, key arrivals, handshake completion, dispatches — brings it back;
/// and the 1-RTT keys stay valid for any such sequence.
pub proof fn lemma_discard_is_permanent(l: Lifecycle, ops: Seq<Op>)
    ensures
        !l.init_active ==> !apply_ops(l, ops).init_active,
        !l.hs_active ==> !apply_ops(l, ops).hs_active,
        !l.zero_rtt_active ==> !apply_ops(l, ops).zero_rtt_active,
        l.initial_keys == invalidated() ==> apply_ops(l, ops).initial_keys == invalidated(),
        l.handshake_keys == invalidated() ==> apply_ops(l, ops).handshake_keys == invalidated(),
        l.zero_rtt_keys == invalidated() ==> apply_ops(l, ops).zero_rtt_keys == invalidated(),
        l.one_rtt_keys.state != KeyState::Invalid ==> apply_ops(l, ops).one_rtt_keys.state
            != KeyState::Invalid,
    decreases ops.len(),
{
    if ops.len() > 0 {
        lemma_step_preserves_discard(l, ops.first());
        lemma_discard_is_permanent(lifecycle_step(l, ops.first()), ops.drop_first());
    }
}

/// Draining is terminal: no operation of the core, and hence no sequence of
/// them, moves a draining connection back to activity.
pub proof fn lemma_draining_is_terminal(l: Lifecycle, ops: Seq<Op>)
    ensures
        l.state == ConnectionState::Draining ==> apply_ops(l, ops).state
            == ConnectionState::Draining,
    decreases ops.len(),
{
    if ops.len() > 0 {
        assert(l.state == ConnectionState::Draining ==> lifecycle_step(l, ops.first()).state
            == ConnectionState::Draining);
        lemma_draining_is_terminal(lifecycle_step(l, ops.first()), ops.drop_first());
    }
}

/// A Close frame drains the connection — and changes nothing else — in any
/// state; in particular it moves Active to Draining.
pub proof fn lemma_close_drains(c: RawConnection, code: u64)
    ensures
        dispatch_post(c, ConnFrame::Close(code)) == (RawConnection {
            state: ConnectionState::Draining,
            ..c
        }),
        dispatch_result(c, ConnFrame::Close(code)) == Ok::<DispatchOutcome, Error>(
            DispatchOutcome::Handled,
        ),
{
}

/// A server receiving HandshakeDone reports a protocol violation and leaves
/// the connection untouched: no key is invalidated and the state does not
/// move to Draining.
pub proof fn lemma_server_handshake_done_violation(c: RawConnection)
    requires
        c.role == Role::Server,
    ensures
        dispatch_post(c, ConnFrame::HandshakeDone) == c,
        dispatch_result(c, ConnFrame::HandshakeDone) == Err::<DispatchOutcome, Error>(
            Error { kind: ErrorKind::ProtocolViolation },
        ),
{
}

/// A client receiving HandshakeDone invalidates the Initial, Handshake and
/// 0-RTT keys, idempotently: a duplicate HandshakeDone neither fails nor
/// changes anything further.
pub proof fn lemma_client_handshake_done_idempotent(c: RawConnection)
    requires
        c.role == Role::Client,
    ensures
        dispatch_post(c, ConnFrame::HandshakeDone) == handshake_done_spec(c),
        handshake_done_spec(c).initial_keys == invalidated(),
        handshake_done_spec(c).handshake_keys == invalidated(),
        handshake_done_spec(c).zero_rtt_keys == invalidated(),
        dispatch_post(dispatch_post(c, ConnFrame::HandshakeDone), ConnFrame::HandshakeDone)
            == dispatch_post(c, ConnFrame::HandshakeDone),
        dispatch_result(c, ConnFrame::HandshakeDone) == Ok::<DispatchOutcome, Error>(
            DispatchOutcome::Handled,
        ),
        dispatch_result(dispatch_post(c, ConnFrame::HandshakeDone), ConnFrame::HandshakeDone)
            == Ok::<DispatchOutcome, Error>(DispatchOutcome::Handled),
{
}

/// A MaxData frame raises the send budget by exactly the carried amount
/// whenever that fits the budget's type, never lowers it, and changes
/// nothing else of the connection.
pub proof fn lemma_max_data_raises_budget(c: RawConnection, n: u64)
    ensures
        dispatch_post(c, ConnFrame::MaxData(n)) == (RawConnection {
            flow_ctrl: permitted(c.flow_ctrl, n),
            ..c
        }),
        c.flow_ctrl.send_budget + n <= u64::MAX ==> dispatch_post(
            c,
            ConnFrame::MaxData(n),
        ).flow_ctrl.send_budget == c.flow_ctrl.send_budget + n,
        dispatch_post(c, ConnFrame::MaxData(n)).flow_ctrl.send_budget >= c.flow_ctrl.send_budget,
        dispatch_result(c, ConnFrame::MaxData(n)) == Ok::<DispatchOutcome, Error>(
            DispatchOutcome::Handled,
        ),
{
}

} // verus!
