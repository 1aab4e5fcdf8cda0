//! The connection core: the single source of truth for one QUIC connection.
//! It owns the four packet-number spaces and their receive queues, the key
//! containers gating them, the path mapping, the shared connection-frame
//! queue with its dispatch state machine, and the flow controller. Receive
//! routing resolves a path and enqueues; each space's pipeline step decodes
//! the packet at the head of its queue; the dispatch step consumes one
//! connection frame. Once a space's keys are invalidated its queue is
//! discarded with them, atomically and irreversibly, and every later packet
//! of that space is silently dropped.
use vstd::prelude::*;
use crate::controller::{permitted, FlowController};
use crate::error::{Error, ErrorKind};
use crate::frame::{ConnFrame, TransportParameters};
use crate::keys::{invalidated, made_ready, KeyContainer, KeyState};
use crate::packet::{HandshakePacket, InitialPacket, OneRttPacket, Packet, SpinBit, ZeroRttPacket};
use crate::path::{
    inserted, path_at, AckObserver, LossObserver, Path, PathMap, Pathway, SocketHandle,
    RTO_GRANULARITY_MILLIS,
};
use crate::pipeline::{
    conn_frames_of, datagrams_of, dispatch_frames, routable_len, space_frames_of, PipelineStep,
    RxPacketQueue,
};
use crate::lifecycle::{lifecycle_of, lifecycle_step, Op};
use crate::space::{DataSpace, HandshakeSpace, InitialSpace};
use crate::state::ConnectionState;

verus! {

/// Which end of the connection this core plays.
#[derive(Clone, Copy, PartialEq, Eq, Structural, Debug)]
pub enum Role {
    Client,
    Server,
}

impl Role {
    /// Whether this is the client end.
    pub fn is_client(&self) -> (b: bool)
        ensures
            b == (*self == Role::Client),
    {
        match self {
            Role::Client => true,
            Role::Server => false,
        }
    }

    /// Whether this is the server end.
    pub fn is_server(&self) -> (b: bool)
        ensures
            b == (*self == Role::Server),
    {
        match self {
            Role::Client => false,
            Role::Server => true,
        }
    }
}

/// One encryption epoch, naming its key container.
#[derive(Clone, Copy, PartialEq, Eq, Structural, Debug)]
pub enum Epoch {
    Initial,
    Handshake,
    ZeroRtt,
    OneRtt,
}

/// What the dispatch loop did with one connection frame.
#[derive(Clone, Copy, PartialEq, Eq, Structural, Debug)]
pub enum DispatchOutcome {
    /// The frame was consumed and its action taken.
    Handled,
    /// Connection-id / token management: an extension point this core leaves
    /// to a collaborator. Explicitly not an error, and not silently dropped.
    Unhandled,
}

/// The connection core. All fields are internal state; collaborators hold it
/// only behind a shared handle (`ArcConnection`).
pub struct RawConnection {
    /// Which end we play; fixed at creation.
    pub role: Role,
    /// All paths of the connection, keyed by pathway.
    pub pathes: PathMap,
    /// Initial-space receive queue; discarded with the Initial keys.
    pub init_pkt_queue: RxPacketQueue,
    /// Handshake-space receive queue; discarded with the Handshake keys.
    pub hs_pkt_queue: RxPacketQueue,
    /// 0-RTT receive queue; discarded with the 0-RTT keys.
    pub zero_rtt_pkt_queue: RxPacketQueue,
    /// 1-RTT receive queue: always present; losing it would end the
    /// connection, so it is not optional by construction.
    pub one_rtt_pkt_queue: Vec<(Packet, Path)>,
    pub initial_keys: KeyContainer,
    pub handshake_keys: KeyContainer,
    pub zero_rtt_keys: KeyContainer,
    pub one_rtt_keys: KeyContainer,
    /// The Initial space; torn down with its keys.
    pub initial_space: Option<InitialSpace>,
    /// The Handshake space; torn down with its keys.
    pub handshake_space: Option<HandshakeSpace>,
    /// The data space, serving 0-RTT and 1-RTT; never torn down.
    pub data_space: DataSpace,
    /// Shared by every path; identity fixed at creation.
    pub ack_observer: AckObserver,
    /// Shared by every path; identity fixed at creation.
    pub loss_observer: LossObserver,
    /// The one-bit latency-spin signal; off by default.
    pub spin: SpinBit,
    /// The connection-level state machine.
    pub state: ConnectionState,
    /// The connection-level flow controller.
    pub flow_ctrl: FlowController,
    /// The shared connection-frame queue: every space's pipeline feeds it,
    /// the dispatch step consumes it, FIFO.
    pub conn_frame_deque: Vec<ConnFrame>,
    /// Datagrams awaiting the application, from the data spaces' pipelines.
    pub datagram_queue: Vec<Vec<u8>>,
}

impl RawConnection {
    /// Internal consistency: paths are uniquely keyed; each early space's
    /// receive queue is active exactly while its keys are not invalidated,
    /// and the space itself is torn down exactly with its keys; the 1-RTT
    /// keys are never invalidated for the life of the connection.
    pub open spec fn wf(&self) -> bool {
        &&& self.pathes.wf()
        &&& self.init_pkt_queue.is_active() <==> self.initial_keys.state != KeyState::Invalid
        &&& self.hs_pkt_queue.is_active() <==> self.handshake_keys.state != KeyState::Invalid
        &&& self.zero_rtt_pkt_queue.is_active() <==> self.zero_rtt_keys.state != KeyState::Invalid
        &&& self.initial_space is Some <==> self.initial_keys.state != KeyState::Invalid
        &&& self.handshake_space is Some <==> self.handshake_keys.state != KeyState::Invalid
        &&& self.one_rtt_keys.state != KeyState::Invalid
    }

    /// The path a look-up for `pathway` would create if the pathway is new:
    /// bound to the given socket, the standard timer granularity, and the
    /// connection's shared observers.
    pub open spec fn new_path_spec(&self, pathway: Pathway, usc: SocketHandle) -> Path {
        Path {
            pathway,
            usc,
            rto_granularity_millis: RTO_GRANULARITY_MILLIS,
            ack_observer: self.ack_observer,
            loss_observer: self.loss_observer,
        }
    }

    /// Resolve the path for `pathway`, creating and caching it on first
    /// sight. Idempotent: a later call with the same pathway returns the
    /// cached path and changes nothing.
    pub fn get_path(&mut self, pathway: Pathway, usc: &SocketHandle) -> (r: Path)
        requires
            old(self).wf(),
        ensures
            final(self).wf(),
            final(self).pathes.entries@ == inserted(
                old(self).pathes.entries@,
                old(self).new_path_spec(pathway, *usc),
            ),
            r == path_at(final(self).pathes.entries@, pathway),
            r.pathway == pathway,
            *final(self) == (RawConnection { pathes: final(self).pathes, ..*old(self) }),
            lifecycle_of(*final(self)) == lifecycle_step(lifecycle_of(*old(self)), Op::GetPath),
    {
        let fresh = Path {
            pathway,
            usc: *usc,
            rto_granularity_millis: RTO_GRANULARITY_MILLIS,
            ack_observer: self.ack_observer,
            loss_observer: self.loss_observer,
        };
        self.pathes.get_or_insert(pathway, fresh)
    }

    /// Route a received Initial packet: resolve its path and enqueue it for
    /// the Initial pipeline. Once the Initial space is discarded the packet
    /// is silently dropped — expected behaviour for a peer that has not yet
    /// heard the epoch is retired — and the connection is left untouched.
    pub fn recv_init_pkt_via(&mut self, pkt: InitialPacket, usc: &SocketHandle, pathway: Pathway)
        requires
            old(self).wf(),
        ensures
            final(self).wf(),
            !old(self).init_pkt_queue.is_active() ==> *final(self) == *old(self),
            old(self).init_pkt_queue.is_active() ==> ({
                let entries1 = inserted(
                    old(self).pathes.entries@,
                    old(self).new_path_spec(pathway, *usc),
                );
                &&& final(self).pathes.entries@ == entries1
                &&& final(self).init_pkt_queue.is_active()
                &&& final(self).init_pkt_queue.packets() == old(self).init_pkt_queue.packets().push(
                    (pkt, path_at(entries1, pathway)),
                )
                &&& *final(self) == (RawConnection {
                    pathes: final(self).pathes,
                    init_pkt_queue: final(self).init_pkt_queue,
                    ..*old(self)
                })
            }),
            lifecycle_of(*final(self)) == lifecycle_step(lifecycle_of(*old(self)), Op::RecvInitial),
    {
        let active = match &self.init_pkt_queue {
            RxPacketQueue::Active(_) => true,
            RxPacketQueue::Discarded => false,
        };
        if active {
            let path = self.get_path(pathway, usc);
            match &mut self.init_pkt_queue {
                RxPacketQueue::Active(q) => {
                    q.push((pkt, path));
                },
                RxPacketQueue::Discarded => {},
            }
        }
    }

    /// Route a received Handshake packet, as `recv_init_pkt_via` does for
    /// the Initial space.
    pub fn recv_hs_pkt_via(&mut self, pkt: HandshakePacket, usc: &SocketHandle, pathway: Pathway)
        requires
            old(self).wf(),
        ensures
            final(self).wf(),
            !old(self).hs_pkt_queue.is_active() ==> *final(self) == *old(self),
            old(self).hs_pkt_queue.is_active() ==> ({
                let entries1 = inserted(
                    old(self).pathes.entries@,
                    old(self).new_path_spec(pathway, *usc),
                );
                &&& final(self).pathes.entries@ == entries1
                &&& final(self).hs_pkt_queue.is_active()
                &&& final(self).hs_pkt_queue.packets() == old(self).hs_pkt_queue.packets().push(
                    (pkt, path_at(entries1, pathway)),
                )
                &&& *final(self) == (RawConnection {
                    pathes: final(self).pathes,
                    hs_pkt_queue: final(self).hs_pkt_queue,
                    ..*old(self)
                })
            }),
            lifecycle_of(*final(self)) == lifecycle_step(lifecycle_of(*old(self)), Op::RecvHandshake),
    {
        let active = match &self.hs_pkt_queue {
            RxPacketQueue::Active(_) => true,
            RxPacketQueue::Discarded => false,
        };
        if active {
            let path = self.get_path(pathway, usc);
            match &mut self.hs_pkt_queue {
                RxPacketQueue::Active(q) => {
                    q.push((pkt, path));
                },
                RxPacketQueue::Discarded => {},
            }
        }
    }

    /// Route a received 0-RTT packet, as `recv_init_pkt_via` does for the
    /// Initial space.
    pub fn recv_0rtt_pkt_via(&mut self, pkt: ZeroRttPacket, usc: &SocketHandle, pathway: Pathway)
        requires
            old(self).wf(),
        ensures
            final(self).wf(),
            !old(self).zero_rtt_pkt_queue.is_active() ==> *final(self) == *old(self),
            old(self).zero_rtt_pkt_queue.is_active() ==> ({
                let entries1 = inserted(
                    old(self).pathes.entries@,
                    old(self).new_path_spec(pathway, *usc),
                );
                &&& final(self).pathes.entries@ == entries1
                &&& final(self).zero_rtt_pkt_queue.is_active()
                &&& final(self).zero_rtt_pkt_queue.packets() == old(
                    self,
                ).zero_rtt_pkt_queue.packets().push((pkt, path_at(entries1, pathway)))
                &&& *final(self) == (RawConnection {
                    pathes: final(self).pathes,
                    zero_rtt_pkt_queue: final(self).zero_rtt_pkt_queue,
                    ..*old(self)
                })
            }),
            lifecycle_of(*final(self)) == lifecycle_step(lifecycle_of(*old(self)), Op::RecvZeroRtt),
    {
        let active = match &self.zero_rtt_pkt_queue {
            RxPacketQueue::Active(_) => true,
            RxPacketQueue::Discarded => false,
        };
        if active {
            let path = self.get_path(pathway, usc);
            match &mut self.zero_rtt_pkt_queue {
                RxPacketQueue::Active(q) => {
                    q.push((pkt, path));
                },
                RxPacketQueue::Discarded => {},
            }
        }
    }

    /// Route a received 1-RTT packet. The 1-RTT space lives as long as the
    /// connection: this path never discards, for any reachable state, and
    /// always grows the queue by exactly the given packet.
    pub fn recv_1rtt_pkt_via(&mut self, pkt: OneRttPacket, usc: &SocketHandle, pathway: Pathway)
        requires
            old(self).wf(),
        ensures
            final(self).wf(),
            ({
                let entries1 = inserted(
                    old(self).pathes.entries@,
                    old(self).new_path_spec(pathway, *usc),
                );
                &&& final(self).pathes.entries@ == entries1
                &&& final(self).one_rtt_pkt_queue@ == old(self).one_rtt_pkt_queue@.push(
                    (pkt, path_at(entries1, pathway)),
                )
                &&& *final(self) == (RawConnection {
                    pathes: final(self).pathes,
                    one_rtt_pkt_queue: final(self).one_rtt_pkt_queue,
                    ..*old(self)
                })
            }),
            lifecycle_of(*final(self)) == lifecycle_step(lifecycle_of(*old(self)), Op::RecvOneRtt),
    {
        let path = self.get_path(pathway, usc);
        self.one_rtt_pkt_queue.push((pkt, path));
    }

    /// Discard the Initial keys, and with them, atomically, the Initial
    /// receive queue and space. Idempotent.
    fn invalid_init_keys(&mut self)
        ensures
            *final(self) == (RawConnection {
                initial_keys: invalidated(),
                init_pkt_queue: RxPacketQueue::Discarded,
                initial_space: None,
                ..*old(self)
            }),
    {
        self.initial_keys.invalid();
        self.init_pkt_queue = RxPacketQueue::Discarded;
        self.initial_space = None;
    }

    /// Discard the Handshake keys, queue and space, atomically. Idempotent.
    fn invalid_hs_keys(&mut self)
        ensures
            *final(self) == (RawConnection {
                handshake_keys: invalidated(),
                hs_pkt_queue: RxPacketQueue::Discarded,
                handshake_space: None,
                ..*old(self)
            }),
    {
        self.handshake_keys.invalid();
        self.hs_pkt_queue = RxPacketQueue::Discarded;
        self.handshake_space = None;
    }

    /// Discard the 0-RTT keys and queue, atomically. The data space itself
    /// stays: it still serves 1-RTT. Idempotent.
    fn invalid_0rtt_keys(&mut self)
        ensures
            *final(self) == (RawConnection {
                zero_rtt_keys: invalidated(),
                zero_rtt_pkt_queue: RxPacketQueue::Discarded,
                ..*old(self)
            }),
    {
        self.zero_rtt_keys.invalid();
        self.zero_rtt_pkt_queue = RxPacketQueue::Discarded;
    }

    /// The handshake is confirmed: discard the Initial, Handshake and 0-RTT
    /// keys together, with their queues and spaces. Idempotent; a duplicate
    /// confirmation changes nothing further.
    fn handshake_done(&mut self)
        ensures
            *final(self) == handshake_done_spec(*old(self)),
    {
        self.invalid_init_keys();
        self.invalid_hs_keys();
        self.invalid_0rtt_keys();
    }

    /// An epoch's key material has arrived: mark its container ready.
    /// Discarded keys stay discarded.
    pub fn on_keys_ready(&mut self, epoch: Epoch)
        requires
            old(self).wf(),
        ensures
            final(self).wf(),
            epoch == Epoch::Initial ==> *final(self) == (RawConnection {
                initial_keys: made_ready(old(self).initial_keys),
                ..*old(self)
            }),
            epoch == Epoch::Handshake ==> *final(self) == (RawConnection {
                handshake_keys: made_ready(old(self).handshake_keys),
                ..*old(self)
            }),
            epoch == Epoch::ZeroRtt ==> *final(self) == (RawConnection {
                zero_rtt_keys: made_ready(old(self).zero_rtt_keys),
                ..*old(self)
            }),
            epoch == Epoch::OneRtt ==> *final(self) == (RawConnection {
                one_rtt_keys: made_ready(old(self).one_rtt_keys),
                ..*old(self)
            }),
            lifecycle_of(*final(self)) == lifecycle_step(lifecycle_of(*old(self)), Op::KeysReady(epoch)),
    {
        match epoch {
            Epoch::Initial => self.initial_keys.set_ready(),
            Epoch::Handshake => self.handshake_keys.set_ready(),
            Epoch::ZeroRtt => self.zero_rtt_keys.set_ready(),
            Epoch::OneRtt => self.one_rtt_keys.set_ready(),
        }
    }

    /// The handshake driver finished its final epoch: the 1-RTT keys are
    /// ready and the negotiated transport parameters are applied to the data
    /// space. A server confirms completion to itself directly: it enqueues
    /// HandshakeDone on the data space's reliable frame queue and discards
    /// every earlier epoch at once, without waiting for any echo.
    pub fn complete_handshake(&mut self, params: TransportParameters)
        requires
            old(self).wf(),
        ensures
            final(self).wf(),
            old(self).role == Role::Client ==> ({
                &&& final(self).data_space == (DataSpace {
                    transport_parameters: Some(params),
                    ..old(self).data_space
                })
                &&& *final(self) == (RawConnection {
                    one_rtt_keys: made_ready(old(self).one_rtt_keys),
                    data_space: final(self).data_space,
                    ..*old(self)
                })
            }),
            old(self).role == Role::Server ==> ({
                &&& final(self).data_space.reliable_conn_frames@ == old(
                    self,
                ).data_space.reliable_conn_frames@.push(ConnFrame::HandshakeDone)
                &&& final(self).data_space == (DataSpace {
                    reliable_conn_frames: final(self).data_space.reliable_conn_frames,
                    transport_parameters: Some(params),
                    ..old(self).data_space
                })
                &&& *final(self) == handshake_done_spec(
                    RawConnection {
                        one_rtt_keys: made_ready(old(self).one_rtt_keys),
                        data_space: final(self).data_space,
                        ..*old(self)
                    },
                )
            }),
            lifecycle_of(*final(self)) == lifecycle_step(lifecycle_of(*old(self)), Op::CompleteHandshake),
    {
        self.one_rtt_keys.set_ready();
        self.data_space.accept_transmute_parameters(params);
        if self.role.is_server() {
            self.data_space.reliable_conn_frames.push(ConnFrame::HandshakeDone);
            self.handshake_done();
        }
    }

    /// Consume one connection frame: the dispatch table of the connection's
    /// frame/state machine. A Close drains the connection; MaxData raises
    /// the send budget; HandshakeDone confirms the handshake for a client
    /// and is a protocol violation from a server's peer; DataBlocked is
    /// acknowledged without a state change; the connection-id and token
    /// frames are an extension point left to a collaborator. An error here
    /// is fatal to the connection and must drive the close sequence.
    pub fn dispatch_conn_frame(&mut self, frame: ConnFrame) -> (r: Result<DispatchOutcome, Error>)
        requires
            old(self).wf(),
        ensures
            final(self).wf(),
            *final(self) == dispatch_post(*old(self), frame),
            r == dispatch_result(*old(self), frame),
            lifecycle_of(*final(self)) == lifecycle_step(lifecycle_of(*old(self)), Op::Dispatch(frame)),
    {
        match &frame {
            ConnFrame::Close(_) => {
                self.state = ConnectionState::Draining;
                Ok(DispatchOutcome::Handled)
            },
            ConnFrame::NewToken(_) => Ok(DispatchOutcome::Unhandled),
            ConnFrame::MaxData(n) => {
                self.flow_ctrl.permit(*n);
                Ok(DispatchOutcome::Handled)
            },
            ConnFrame::NewConnectionId(_) => Ok(DispatchOutcome::Unhandled),
            ConnFrame::RetireConnectionId(_) => Ok(DispatchOutcome::Unhandled),
            ConnFrame::HandshakeDone => {
                if self.role.is_client() {
                    self.handshake_done();
                    Ok(DispatchOutcome::Handled)
                } else {
                    Err(Error::protocol_violation())
                }
            },
            ConnFrame::DataBlocked(_) => Ok(DispatchOutcome::Handled),
        }
    }

    /// One pipeline step of the Initial space: decode the packet at the
    /// head of its receive queue. Pending keys buffer the packet for later;
    /// a failed authentication drops the packet and nothing else; a decoded
    /// packet has its number recorded and its frames routed in order, a
    /// datagram frame among them being the violation the Initial space must
    /// report.
    pub fn process_initial_packet(&mut self) -> (r: PipelineStep)
        requires
            old(self).wf(),
        ensures
            final(self).wf(),
            !old(self).init_pkt_queue.is_active() ==> *final(self) == *old(self) && r
                == PipelineStep::Idle,
            old(self).init_pkt_queue.is_active() && old(self).init_pkt_queue.packets().len() == 0
                ==> *final(self) == *old(self) && r == PipelineStep::Idle,
            old(self).init_pkt_queue.is_active() && old(self).init_pkt_queue.packets().len() > 0
                && old(self).initial_keys.state == KeyState::Pending ==> *final(self) == *old(self)
                && r == PipelineStep::Buffered,
            old(self).init_pkt_queue.is_active() && old(self).init_pkt_queue.packets().len() > 0
                && old(self).initial_keys.state == KeyState::Ready ==> ({
                let pkt = old(self).init_pkt_queue.packets()[0].0;
                &&& final(self).init_pkt_queue.is_active()
                &&& final(self).init_pkt_queue.packets() == old(
                    self,
                ).init_pkt_queue.packets().drop_first()
                &&& !pkt.auth_ok ==> r == PipelineStep::Dropped && *final(self) == (RawConnection {
                    init_pkt_queue: final(self).init_pkt_queue,
                    ..*old(self)
                })
                &&& pkt.auth_ok ==> ({
                    let rl = routable_len(pkt.frames@, false);
                    let pref = pkt.frames@.take(rl);
                    &&& old(self).initial_space matches Some(osp) && final(self).initial_space
                        matches Some(sp) && sp.rcvd_pkt_records.rcvd@
                        == osp.rcvd_pkt_records.rcvd@.push(pkt.pn) && sp.space_frames@
                        == osp.space_frames@ + space_frames_of(pref)
                    &&& final(self).conn_frame_deque@ == old(self).conn_frame_deque@
                        + conn_frames_of(pref)
                    &&& *final(self) == (RawConnection {
                        init_pkt_queue: final(self).init_pkt_queue,
                        initial_space: final(self).initial_space,
                        conn_frame_deque: final(self).conn_frame_deque,
                        ..*old(self)
                    })
                    &&& rl == pkt.frames@.len() ==> r == PipelineStep::Dispatched
                    &&& rl < pkt.frames@.len() ==> r == PipelineStep::Violation(
                        Error { kind: ErrorKind::ProtocolViolation },
                    )
                })
            }),
            lifecycle_of(*final(self)) == lifecycle_step(lifecycle_of(*old(self)), Op::ProcessInitial),
    {
        let active = match &self.init_pkt_queue {
            RxPacketQueue::Active(_) => true,
            RxPacketQueue::Discarded => false,
        };
        let empty = self.init_pkt_queue_len_is_zero();
        if !active || empty {
            return PipelineStep::Idle;
        }
        let pending = match self.initial_keys.state {
            KeyState::Pending => true,
            _ => false,
        };
        if pending {
            return PipelineStep::Buffered;
        }
        let popped = self.init_pkt_queue.pop_front();
        let (pkt, _path) = match popped {
            Some(pp) => pp,
            None => {
                // The queue was just seen active and non-empty.
                proof {
                    assert(false);
                }
                return PipelineStep::Idle;
            },
        };
        let Packet { pn, frames: mut frames, auth_ok } = pkt;
        if !auth_ok {
            return PipelineStep::Dropped;
        }
        let mut sp = match self.initial_space.take() {
            Some(sp) => sp,
            None => {
                // The space accompanies its keys: with the keys ready it
                // cannot have been torn down.
                proof {
                    assert(false);
                }
                return PipelineStep::Idle;
            },
        };
        sp.rcvd_pkt_records.register_pn(pn);
        let mut scratch: Vec<Vec<u8>> = Vec::new();
        let violation = dispatch_frames(
            &mut frames,
            false,
            &mut self.conn_frame_deque,
            &mut sp.space_frames,
            &mut scratch,
        );
        self.initial_space = Some(sp);
        match violation {
            None => PipelineStep::Dispatched,
            Some(e) => PipelineStep::Violation(e),
        }
    }

    /// Whether the Initial receive queue holds no packet (a discarded queue
    /// holds none).
    fn init_pkt_queue_len_is_zero(&self) -> (b: bool)
        ensures
            b == (self.init_pkt_queue.packets().len() == 0),
    {
        match &self.init_pkt_queue {
            RxPacketQueue::Active(q) => q.len() == 0,
            RxPacketQueue::Discarded => true,
        }
    }

    /// One pipeline step of the Handshake space, exactly as
    /// `process_initial_packet` for the Initial space.
    pub fn process_handshake_packet(&mut self) -> (r: PipelineStep)
        requires
            old(self).wf(),
        ensures
            final(self).wf(),
            !old(self).hs_pkt_queue.is_active() ==> *final(self) == *old(self) && r
                == PipelineStep::Idle,
            old(self).hs_pkt_queue.is_active() && old(self).hs_pkt_queue.packets().len() == 0 ==>
                *final(self) == *old(self) && r == PipelineStep::Idle,
            old(self).hs_pkt_queue.is_active() && old(self).hs_pkt_queue.packets().len() > 0 && old(
                self,
            ).handshake_keys.state == KeyState::Pending ==> *final(self) == *old(self) && r
                == PipelineStep::Buffered,
            old(self).hs_pkt_queue.is_active() && old(self).hs_pkt_queue.packets().len() > 0 && old(
                self,
            ).handshake_keys.state == KeyState::Ready ==> ({
                let pkt = old(self).hs_pkt_queue.packets()[0].0;
                &&& final(self).hs_pkt_queue.is_active()
                &&& final(self).hs_pkt_queue.packets() == old(
                    self,
                ).hs_pkt_queue.packets().drop_first()
                &&& !pkt.auth_ok ==> r == PipelineStep::Dropped && *final(self) == (RawConnection {
                    hs_pkt_queue: final(self).hs_pkt_queue,
                    ..*old(self)
                })
                &&& pkt.auth_ok ==> ({
                    let rl = routable_len(pkt.frames@, false);
                    let pref = pkt.frames@.take(rl);
                    &&& old(self).handshake_space matches Some(osp) && final(self).handshake_space
                        matches Some(sp) && sp.rcvd_pkt_records.rcvd@
                        == osp.rcvd_pkt_records.rcvd@.push(pkt.pn) && sp.space_frames@
                        == osp.space_frames@ + space_frames_of(pref)
                    &&& final(self).conn_frame_deque@ == old(self).conn_frame_deque@
                        + conn_frames_of(pref)
                    &&& *final(self) == (RawConnection {
                        hs_pkt_queue: final(self).hs_pkt_queue,
                        handshake_space: final(self).handshake_space,
                        conn_frame_deque: final(self).conn_frame_deque,
                        ..*old(self)
                    })
                    &&& rl == pkt.frames@.len() ==> r == PipelineStep::Dispatched
                    &&& rl < pkt.frames@.len() ==> r == PipelineStep::Violation(
                        Error { kind: ErrorKind::ProtocolViolation },
                    )
                })
            }),
            lifecycle_of(*final(self)) == lifecycle_step(lifecycle_of(*old(self)), Op::ProcessHandshake),
    {
        let active = match &self.hs_pkt_queue {
            RxPacketQueue::Active(_) => true,
            RxPacketQueue::Discarded => false,
        };
        let empty = match &self.hs_pkt_queue {
            RxPacketQueue::Active(q) => q.len() == 0,
            RxPacketQueue::Discarded => true,
        };
        if !active || empty {
            return PipelineStep::Idle;
        }
        let pending = match self.handshake_keys.state {
            KeyState::Pending => true,
            _ => false,
        };
        if pending {
            return PipelineStep::Buffered;
        }
        let popped = self.hs_pkt_queue.pop_front();
        let (pkt, _path) = match popped {
            Some(pp) => pp,
            None => {
                // The queue was just seen active and non-empty.
                proof {
                    assert(false);
                }
                return PipelineStep::Idle;
            },
        };
        let Packet { pn, frames: mut frames, auth_ok } = pkt;
        if !auth_ok {
            return PipelineStep::Dropped;
        }
        let mut sp = match self.handshake_space.take() {
            Some(sp) => sp,
            None => {
                // The space accompanies its keys: with the keys ready it
                // cannot have been torn down.
                proof {
                    assert(false);
                }
                return PipelineStep::Idle;
            },
        };
        sp.rcvd_pkt_records.register_pn(pn);
        let mut scratch: Vec<Vec<u8>> = Vec::new();
        let violation = dispatch_frames(
            &mut frames,
            false,
            &mut self.conn_frame_deque,
            &mut sp.space_frames,
            &mut scratch,
        );
        self.handshake_space = Some(sp);
        match violation {
            None => PipelineStep::Dispatched,
            Some(e) => PipelineStep::Violation(e),
        }
    }

    /// One pipeline step of the 0-RTT half of the data space. As the
    /// Initial pipeline, except that the sinks are the data space's, the
    /// datagram sink exists, and so every frame routes: a decoded packet is
    /// always fully dispatched.
    pub fn process_zero_rtt_packet(&mut self) -> (r: PipelineStep)
        requires
            old(self).wf(),
        ensures
            final(self).wf(),
            !old(self).zero_rtt_pkt_queue.is_active() ==> *final(self) == *old(self) && r
                == PipelineStep::Idle,
            old(self).zero_rtt_pkt_queue.is_active() && old(self).zero_rtt_pkt_queue.packets().len()
                == 0 ==> *final(self) == *old(self) && r == PipelineStep::Idle,
            old(self).zero_rtt_pkt_queue.is_active() && old(self).zero_rtt_pkt_queue.packets().len()
                > 0 && old(self).zero_rtt_keys.state == KeyState::Pending ==> *final(self) == *old(
                self,
            ) && r == PipelineStep::Buffered,
            old(self).zero_rtt_pkt_queue.is_active() && old(self).zero_rtt_pkt_queue.packets().len()
                > 0 && old(self).zero_rtt_keys.state == KeyState::Ready ==> ({
                let pkt = old(self).zero_rtt_pkt_queue.packets()[0].0;
                &&& final(self).zero_rtt_pkt_queue.is_active()
                &&& final(self).zero_rtt_pkt_queue.packets() == old(
                    self,
                ).zero_rtt_pkt_queue.packets().drop_first()
                &&& !pkt.auth_ok ==> r == PipelineStep::Dropped && *final(self) == (RawConnection {
                    zero_rtt_pkt_queue: final(self).zero_rtt_pkt_queue,
                    ..*old(self)
                })
                &&& pkt.auth_ok ==> ({
                    let rl = routable_len(pkt.frames@, true);
                    let pref = pkt.frames@.take(rl);
                    &&& final(self).data_space.rcvd_pkt_records.rcvd@ == old(
                        self,
                    ).data_space.rcvd_pkt_records.rcvd@.push(pkt.pn)
                    &&& final(self).data_space.space_frames@ == old(self).data_space.space_frames@
                        + space_frames_of(pref)
                    &&& final(self).data_space == (DataSpace {
                        rcvd_pkt_records: final(self).data_space.rcvd_pkt_records,
                        space_frames: final(self).data_space.space_frames,
                        ..old(self).data_space
                    })
                    &&& final(self).conn_frame_deque@ == old(self).conn_frame_deque@
                        + conn_frames_of(pref)
                    &&& final(self).datagram_queue@ == old(self).datagram_queue@ + datagrams_of(
                        pref,
                    )
                    &&& *final(self) == (RawConnection {
                        zero_rtt_pkt_queue: final(self).zero_rtt_pkt_queue,
                        data_space: final(self).data_space,
                        conn_frame_deque: final(self).conn_frame_deque,
                        datagram_queue: final(self).datagram_queue,
                        ..*old(self)
                    })
                    &&& rl == pkt.frames@.len() ==> r == PipelineStep::Dispatched
                    &&& rl < pkt.frames@.len() ==> r == PipelineStep::Violation(
                        Error { kind: ErrorKind::ProtocolViolation },
                    )
                })
            }),
            lifecycle_of(*final(self)) == lifecycle_step(lifecycle_of(*old(self)), Op::ProcessZeroRtt),
    {
        let active = match &self.zero_rtt_pkt_queue {
            RxPacketQueue::Active(_) => true,
            RxPacketQueue::Discarded => false,
        };
        let empty = match &self.zero_rtt_pkt_queue {
            RxPacketQueue::Active(q) => q.len() == 0,
            RxPacketQueue::Discarded => true,
        };
        if !active || empty {
            return PipelineStep::Idle;
        }
        let pending = match self.zero_rtt_keys.state {
            KeyState::Pending => true,
            _ => false,
        };
        if pending {
            return PipelineStep::Buffered;
        }
        let popped = self.zero_rtt_pkt_queue.pop_front();
        let (pkt, _path) = match popped {
            Some(pp) => pp,
            None => {
                // The queue was just seen active and non-empty.
                proof {
                    assert(false);
                }
                return PipelineStep::Idle;
            },
        };
        let Packet { pn, frames: mut frames, auth_ok } = pkt;
        if !auth_ok {
            return PipelineStep::Dropped;
        }
        self.data_space.rcvd_pkt_records.register_pn(pn);
        let violation = dispatch_frames(
            &mut frames,
            true,
            &mut self.conn_frame_deque,
            &mut self.data_space.space_frames,
            &mut self.datagram_queue,
        );
        match violation {
            None => PipelineStep::Dispatched,
            Some(e) => PipelineStep::Violation(e),
        }
    }

    /// One pipeline step of the 1-RTT half of the data space. The queue is
    /// never discarded, so the step is idle only while the queue is empty.
    pub fn process_one_rtt_packet(&mut self) -> (r: PipelineStep)
        requires
            old(self).wf(),
        ensures
            final(self).wf(),
            old(self).one_rtt_pkt_queue@.len() == 0 ==> *final(self) == *old(self) && r
                == PipelineStep::Idle,
            old(self).one_rtt_pkt_queue@.len() > 0 && old(self).one_rtt_keys.state
                == KeyState::Pending ==> *final(self) == *old(self) && r == PipelineStep::Buffered,
            old(self).one_rtt_pkt_queue@.len() > 0 && old(self).one_rtt_keys.state
                == KeyState::Ready ==> ({
                let pkt = old(self).one_rtt_pkt_queue@[0].0;
                &&& final(self).one_rtt_pkt_queue@ == old(self).one_rtt_pkt_queue@.drop_first()
                &&& !pkt.auth_ok ==> r == PipelineStep::Dropped && *final(self) == (RawConnection {
                    one_rtt_pkt_queue: final(self).one_rtt_pkt_queue,
                    ..*old(self)
                })
                &&& pkt.auth_ok ==> ({
                    let rl = routable_len(pkt.frames@, true);
                    let pref = pkt.frames@.take(rl);
                    &&& final(self).data_space.rcvd_pkt_records.rcvd@ == old(
                        self,
                    ).data_space.rcvd_pkt_records.rcvd@.push(pkt.pn)
                    &&& final(self).data_space.space_frames@ == old(self).data_space.space_frames@
                        + space_frames_of(pref)
                    &&& final(self).data_space == (DataSpace {
                        rcvd_pkt_records: final(self).data_space.rcvd_pkt_records,
                        space_frames: final(self).data_space.space_frames,
                        ..old(self).data_space
                    })
                    &&& final(self).conn_frame_deque@ == old(self).conn_frame_deque@
                        + conn_frames_of(pref)
                    &&& final(self).datagram_queue@ == old(self).datagram_queue@ + datagrams_of(
                        pref,
                    )
                    &&& *final(self) == (RawConnection {
                        one_rtt_pkt_queue: final(self).one_rtt_pkt_queue,
                        data_space: final(self).data_space,
                        conn_frame_deque: final(self).conn_frame_deque,
                        datagram_queue: final(self).datagram_queue,
                        ..*old(self)
                    })
                    &&& rl == pkt.frames@.len() ==> r == PipelineStep::Dispatched
                    &&& rl < pkt.frames@.len() ==> r == PipelineStep::Violation(
                        Error { kind: ErrorKind::ProtocolViolation },
                    )
                })
            }),
            lifecycle_of(*final(self)) == lifecycle_step(lifecycle_of(*old(self)), Op::ProcessOneRtt),
    {
        if self.one_rtt_pkt_queue.len() == 0 {
            return PipelineStep::Idle;
        }
        let pending = match self.one_rtt_keys.state {
            KeyState::Pending => true,
            _ => false,
        };
        if pending {
            return PipelineStep::Buffered;
        }
        let (pkt, _path) = self.one_rtt_pkt_queue.remove(0);
        proof {
            assert(self.one_rtt_pkt_queue@ =~= old(self).one_rtt_pkt_queue@.drop_first());
        }
        let Packet { pn, frames: mut frames, auth_ok } = pkt;
        if !auth_ok {
            return PipelineStep::Dropped;
        }
        self.data_space.rcvd_pkt_records.register_pn(pn);
        let violation = dispatch_frames(
            &mut frames,
            true,
            &mut self.conn_frame_deque,
            &mut self.data_space.space_frames,
            &mut self.datagram_queue,
        );
        match violation {
            None => PipelineStep::Dispatched,
            Some(e) => PipelineStep::Violation(e),
        }
    }

    /// One turn of the dispatch loop: consume the connection frame at the
    /// head of the shared queue, if any.
    pub fn dispatch_next(&mut self) -> (r: Option<Result<DispatchOutcome, Error>>)
        requires
            old(self).wf(),
        ensures
            final(self).wf(),
            old(self).conn_frame_deque@.len() == 0 ==> *final(self) == *old(self) && r == None::<
                Result<DispatchOutcome, Error>,
            >,
            old(self).conn_frame_deque@.len() > 0 ==> ({
                let head = old(self).conn_frame_deque@[0];
                &&& final(self).conn_frame_deque@ == old(self).conn_frame_deque@.drop_first()
                &&& *final(self) == (RawConnection {
                    conn_frame_deque: final(self).conn_frame_deque,
                    ..dispatch_post(*old(self), head)
                })
                &&& r == Some(dispatch_result(*old(self), head))
            }),
            old(self).conn_frame_deque@.len() > 0 ==> lifecycle_of(*final(self)) == lifecycle_step(
                lifecycle_of(*old(self)),
                Op::Dispatch(old(self).conn_frame_deque@[0]),
            ),
    {
        if self.conn_frame_deque.len() == 0 {
            return None;
        }
        let frame = self.conn_frame_deque.remove(0);
        proof {
            assert(self.conn_frame_deque@ =~= old(self).conn_frame_deque@.drop_first());
        }
        Some(self.dispatch_conn_frame(frame))
    }
}

/// What the dispatch of one connection frame leaves of the connection.
/// Only Close, MaxData and a client's HandshakeDone change anything; every
/// other frame, the extension points included, leaves the state as it was.
pub open spec fn dispatch_post(c: RawConnection, frame: ConnFrame) -> RawConnection {
    match frame {
        ConnFrame::Close(_) => RawConnection { state: ConnectionState::Draining, ..c },
        ConnFrame::MaxData(n) => RawConnection { flow_ctrl: permitted(c.flow_ctrl, n), ..c },
        ConnFrame::HandshakeDone => if c.role == Role::Client {
            handshake_done_spec(c)
        } else {
            c
        },
        _ => c,
    }
}

/// What the dispatch of one connection frame reports: handled, explicitly
/// unhandled (the extension frames), or the protocol violation a server
/// answers a HandshakeDone with.
pub open spec fn dispatch_result(c: RawConnection, frame: ConnFrame) -> Result<
    DispatchOutcome,
    Error,
> {
    match frame {
        ConnFrame::Close(_) => Ok(DispatchOutcome::Handled),
        ConnFrame::MaxData(_) => Ok(DispatchOutcome::Handled),
        ConnFrame::DataBlocked(_) => Ok(DispatchOutcome::Handled),
        ConnFrame::HandshakeDone => if c.role == Role::Client {
            Ok(DispatchOutcome::Handled)
        } else {
            Err(Error { kind: ErrorKind::ProtocolViolation })
        },
        _ => Ok(DispatchOutcome::Unhandled),
    }
}

/// A connection once the handshake is confirmed: the three early epochs'
/// keys invalidated and their queues and spaces discarded, everything else
/// untouched. Applying it twice is the same as applying it once.
pub open spec fn handshake_done_spec(c: RawConnection) -> RawConnection {
    RawConnection {
        initial_keys: invalidated(),
        handshake_keys: invalidated(),
        zero_rtt_keys: invalidated(),
        init_pkt_queue: RxPacketQueue::Discarded,
        hs_pkt_queue: RxPacketQueue::Discarded,
        zero_rtt_pkt_queue: RxPacketQueue::Discarded,
        initial_space: None,
        handshake_space: None,
        ..c
    }
}

/// The cloneable reference-counted handle the rest of the endpoint holds a
/// connection by; no raw shared mutability is ever exposed.
pub struct ArcConnection(pub RawConnection);

/// Create a connection core for the given role: four active pipelines, all
/// keys pending, an empty path table, an Active state machine, and zeroed
/// flow budgets. The ack and loss observers are built here, once, from the
/// three spaces' records; their identity never changes afterwards.
pub fn new(role: Role) -> (c: ArcConnection)
    ensures
        c.0.wf(),
        c.0.role == role,
        c.0.state == ConnectionState::Active,
        c.0.pathes.entries@ == Seq::<Path>::empty(),
        c.0.initial_keys.state == KeyState::Pending,
        c.0.handshake_keys.state == KeyState::Pending,
        c.0.zero_rtt_keys.state == KeyState::Pending,
        c.0.one_rtt_keys.state == KeyState::Pending,
        c.0.init_pkt_queue.is_active(),
        c.0.init_pkt_queue.packets() == Seq::<(Packet, Path)>::empty(),
        c.0.hs_pkt_queue.is_active(),
        c.0.hs_pkt_queue.packets() == Seq::<(Packet, Path)>::empty(),
        c.0.zero_rtt_pkt_queue.is_active(),
        c.0.zero_rtt_pkt_queue.packets() == Seq::<(Packet, Path)>::empty(),
        c.0.one_rtt_pkt_queue@ == Seq::<(Packet, Path)>::empty(),
        c.0.initial_space matches Some(sp) && sp.rcvd_pkt_records.rcvd@ == Seq::<u64>::empty()
            && sp.space_frames@.len() == 0,
        c.0.handshake_space matches Some(sp) && sp.rcvd_pkt_records.rcvd@ == Seq::<u64>::empty()
            && sp.space_frames@.len() == 0,
        c.0.data_space.rcvd_pkt_records.rcvd@ == Seq::<u64>::empty(),
        c.0.data_space.space_frames@.len() == 0,
        c.0.data_space.reliable_conn_frames@.len() == 0,
        c.0.data_space.transport_parameters == None::<TransportParameters>,
        c.0.ack_observer == (AckObserver { id: 0 }),
        c.0.loss_observer == (LossObserver { id: 0 }),
        c.0.spin == SpinBit::Off,
        c.0.flow_ctrl == (FlowController { send_budget: 0, recv_budget: 0 }),
        c.0.conn_frame_deque@.len() == 0,
        c.0.datagram_queue@.len() == 0,
{
    let initial_space = InitialSpace::new();
    let handshake_space = HandshakeSpace::new();
    let data_space = DataSpace::new();
    let ack_observer = AckObserver { id: 0 };
    let loss_observer = LossObserver { id: 0 };
    ArcConnection(
        RawConnection {
            role,
            pathes: PathMap::empty(),
            init_pkt_queue: RxPacketQueue::new_active(),
            hs_pkt_queue: RxPacketQueue::new_active(),
            zero_rtt_pkt_queue: RxPacketQueue::new_active(),
            one_rtt_pkt_queue: Vec::new(),
            initial_keys: KeyContainer::new_pending(),
            handshake_keys: KeyContainer::new_pending(),
            zero_rtt_keys: KeyContainer::new_pending(),
            one_rtt_keys: KeyContainer::new_pending(),
            initial_space: Some(initial_space),
            handshake_space: Some(handshake_space),
            data_space,
            ack_observer,
            loss_observer,
            spin: SpinBit::default(),
            state: ConnectionState::Active,
            flow_ctrl: FlowController::with_initial(0, 0),
            conn_frame_deque: Vec::new(),
            datagram_queue: Vec::new(),
        },
    )
}

} // verus!
