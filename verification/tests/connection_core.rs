use qconnection::connection::{new, DispatchOutcome, Epoch, Role};
use qconnection::error::{Error, ErrorKind};
use qconnection::frame::{ConnFrame, Frame, SpaceFrame, TransportParameters};
use qconnection::keys::KeyState;
use qconnection::packet::{Packet, SpinBit};
use qconnection::path::{NetAddr, Pathway, SocketHandle};
use qconnection::pipeline::{PipelineStep, RxPacketQueue};
use qconnection::state::ConnectionState;

fn pathway(tag: u8) -> Pathway {
    Pathway {
        local: NetAddr { ip: 0x7f_00_00_01, port: 4433 },
        remote: NetAddr { ip: tag as u128, port: 443 },
    }
}

fn socket() -> SocketHandle {
    SocketHandle { id: 7 }
}

fn packet(pn: u64, frames: Vec<Frame>) -> Packet {
    Packet { pn, frames, auth_ok: true }
}

fn params() -> TransportParameters {
    TransportParameters { initial_max_data: 65536 }
}

#[test]
fn new_connection_starts_active_with_pending_keys() {
    let c = new(Role::Client);
    let raw = &c.0;
    assert_eq!(raw.role, Role::Client);
    assert_eq!(raw.state, ConnectionState::Active);
    assert_eq!(raw.initial_keys.state, KeyState::Pending);
    assert_eq!(raw.handshake_keys.state, KeyState::Pending);
    assert_eq!(raw.zero_rtt_keys.state, KeyState::Pending);
    assert_eq!(raw.one_rtt_keys.state, KeyState::Pending);
    assert!(matches!(raw.init_pkt_queue, RxPacketQueue::Active(_)));
    assert!(matches!(raw.hs_pkt_queue, RxPacketQueue::Active(_)));
    assert!(matches!(raw.zero_rtt_pkt_queue, RxPacketQueue::Active(_)));
    assert!(raw.one_rtt_pkt_queue.is_empty());
    assert!(raw.initial_space.is_some());
    assert!(raw.handshake_space.is_some());
    assert!(raw.pathes.entries.is_empty());
    assert_eq!(raw.spin, SpinBit::Off);
    assert_eq!(raw.flow_ctrl.send_budget, 0);
    assert!(raw.conn_frame_deque.is_empty());
    assert!(raw.data_space.transport_parameters.is_none());
}

#[test]
fn get_path_is_idempotent_for_one_pathway() {
    let mut c = new(Role::Client);
    let p1 = c.0.get_path(pathway(1), &socket());
    let p2 = c.0.get_path(pathway(1), &SocketHandle { id: 99 });
    // The second call returns the cached handle: the socket it was first
    // bound to, not the one offered later.
    assert_eq!(p1, p2);
    assert_eq!(p2.usc, socket());
    assert_eq!(c.0.pathes.entries.len(), 1);
    assert_eq!(p1.rto_granularity_millis, 100);
    assert_eq!(p1.ack_observer, c.0.ack_observer);
    assert_eq!(p1.loss_observer, c.0.loss_observer);
}

#[test]
fn get_path_distinguishes_pathways() {
    let mut c = new(Role::Client);
    let p1 = c.0.get_path(pathway(1), &socket());
    let p2 = c.0.get_path(pathway(2), &socket());
    assert_ne!(p1, p2);
    assert_eq!(c.0.pathes.entries.len(), 2);
}

#[test]
fn server_handshake_done_is_protocol_violation_and_keeps_state() {
    let mut c = new(Role::Server);
    let r = c.0.dispatch_conn_frame(ConnFrame::HandshakeDone);
    assert_eq!(r, Err(Error { kind: ErrorKind::ProtocolViolation }));
    assert_eq!(c.0.state, ConnectionState::Active);
    assert_eq!(c.0.initial_keys.state, KeyState::Pending);
    assert_eq!(c.0.handshake_keys.state, KeyState::Pending);
    assert_eq!(c.0.zero_rtt_keys.state, KeyState::Pending);
    assert!(matches!(c.0.init_pkt_queue, RxPacketQueue::Active(_)));
}

#[test]
fn client_handshake_done_invalidates_early_keys_idempotently() {
    let mut c = new(Role::Client);
    let r1 = c.0.dispatch_conn_frame(ConnFrame::HandshakeDone);
    assert_eq!(r1, Ok(DispatchOutcome::Handled));
    assert_eq!(c.0.initial_keys.state, KeyState::Invalid);
    assert_eq!(c.0.handshake_keys.state, KeyState::Invalid);
    assert_eq!(c.0.zero_rtt_keys.state, KeyState::Invalid);
    assert!(matches!(c.0.init_pkt_queue, RxPacketQueue::Discarded));
    assert!(matches!(c.0.hs_pkt_queue, RxPacketQueue::Discarded));
    assert!(matches!(c.0.zero_rtt_pkt_queue, RxPacketQueue::Discarded));
    assert!(c.0.initial_space.is_none());
    assert!(c.0.handshake_space.is_none());
    // A duplicate HandshakeDone must not fail on the double invalidate.
    let r2 = c.0.dispatch_conn_frame(ConnFrame::HandshakeDone);
    assert_eq!(r2, Ok(DispatchOutcome::Handled));
    assert_eq!(c.0.initial_keys.state, KeyState::Invalid);
}

#[test]
fn receives_after_discard_are_silent_and_change_nothing() {
    let mut c = new(Role::Client);
    assert_eq!(c.0.dispatch_conn_frame(ConnFrame::HandshakeDone), Ok(DispatchOutcome::Handled));
    let frames = vec![
        Frame::Conn(ConnFrame::MaxData(10)),
        Frame::Space(SpaceFrame::Ack(3)),
    ];
    c.0.recv_init_pkt_via(packet(1, frames.clone()), &socket(), pathway(1));
    c.0.recv_hs_pkt_via(packet(2, frames.clone()), &socket(), pathway(1));
    c.0.recv_0rtt_pkt_via(packet(3, frames), &socket(), pathway(1));
    // Silently dropped: no path resolved, nothing queued, no output anywhere.
    assert!(c.0.pathes.entries.is_empty());
    assert!(matches!(c.0.init_pkt_queue, RxPacketQueue::Discarded));
    assert!(matches!(c.0.hs_pkt_queue, RxPacketQueue::Discarded));
    assert!(matches!(c.0.zero_rtt_pkt_queue, RxPacketQueue::Discarded));
    assert!(c.0.conn_frame_deque.is_empty());
    assert!(c.0.datagram_queue.is_empty());
    assert!(c.0.data_space.space_frames.is_empty());
    assert_eq!(c.0.process_initial_packet(), PipelineStep::Idle);
    assert_eq!(c.0.process_handshake_packet(), PipelineStep::Idle);
    assert_eq!(c.0.process_zero_rtt_packet(), PipelineStep::Idle);
    assert_eq!(c.0.flow_ctrl.send_budget, 0);
}

#[test]
fn one_rtt_receive_path_never_goes_inert() {
    let mut c = new(Role::Client);
    // Even after every early epoch is discarded, 1-RTT still accepts.
    assert_eq!(c.0.dispatch_conn_frame(ConnFrame::HandshakeDone), Ok(DispatchOutcome::Handled));
    c.0.recv_1rtt_pkt_via(packet(10, vec![]), &socket(), pathway(1));
    c.0.recv_1rtt_pkt_via(packet(11, vec![]), &socket(), pathway(1));
    assert_eq!(c.0.one_rtt_pkt_queue.len(), 2);
    assert_eq!(c.0.one_rtt_pkt_queue[0].0.pn, 10);
    assert_eq!(c.0.one_rtt_pkt_queue[1].0.pn, 11);
    assert_eq!(c.0.pathes.entries.len(), 1);
}

#[test]
fn close_drains_exactly_once_and_never_returns() {
    let mut c = new(Role::Client);
    assert_eq!(c.0.state, ConnectionState::Active);
    assert_eq!(c.0.dispatch_conn_frame(ConnFrame::Close(0x0a)), Ok(DispatchOutcome::Handled));
    assert_eq!(c.0.state, ConnectionState::Draining);
    // Further frames, a second Close among them, never reactivate.
    assert_eq!(c.0.dispatch_conn_frame(ConnFrame::Close(0)), Ok(DispatchOutcome::Handled));
    assert_eq!(c.0.state, ConnectionState::Draining);
    assert_eq!(c.0.dispatch_conn_frame(ConnFrame::MaxData(5)), Ok(DispatchOutcome::Handled));
    assert_eq!(c.0.state, ConnectionState::Draining);
}

#[test]
fn max_data_raises_send_budget_by_exactly_n() {
    let mut c = new(Role::Client);
    assert_eq!(c.0.dispatch_conn_frame(ConnFrame::MaxData(1000)), Ok(DispatchOutcome::Handled));
    assert_eq!(c.0.flow_ctrl.send_budget, 1000);
    assert_eq!(c.0.dispatch_conn_frame(ConnFrame::MaxData(234)), Ok(DispatchOutcome::Handled));
    assert_eq!(c.0.flow_ctrl.send_budget, 1234);
    assert_eq!(c.0.flow_ctrl.recv_budget, 0);
}

#[test]
fn max_data_saturates_at_the_largest_budget() {
    let mut c = new(Role::Client);
    assert_eq!(c.0.dispatch_conn_frame(ConnFrame::MaxData(u64::MAX)), Ok(DispatchOutcome::Handled));
    assert_eq!(c.0.flow_ctrl.send_budget, u64::MAX);
    assert_eq!(c.0.dispatch_conn_frame(ConnFrame::MaxData(1)), Ok(DispatchOutcome::Handled));
    assert_eq!(c.0.flow_ctrl.send_budget, u64::MAX);
}

#[test]
fn extension_frames_are_explicitly_unhandled_not_errors() {
    let mut c = new(Role::Server);
    assert_eq!(
        c.0.dispatch_conn_frame(ConnFrame::NewToken(vec![1, 2, 3])),
        Ok(DispatchOutcome::Unhandled)
    );
    assert_eq!(c.0.dispatch_conn_frame(ConnFrame::NewConnectionId(4)), Ok(DispatchOutcome::Unhandled));
    assert_eq!(
        c.0.dispatch_conn_frame(ConnFrame::RetireConnectionId(2)),
        Ok(DispatchOutcome::Unhandled)
    );
    assert_eq!(c.0.dispatch_conn_frame(ConnFrame::DataBlocked(9)), Ok(DispatchOutcome::Handled));
    assert_eq!(c.0.state, ConnectionState::Active);
    assert_eq!(c.0.flow_ctrl.send_budget, 0);
}

#[test]
fn server_completing_handshake_confirms_to_itself() {
    let mut c = new(Role::Server);
    c.0.complete_handshake(params());
    // The confirmation frame is queued for reliable delivery to the peer...
    assert_eq!(c.0.data_space.reliable_conn_frames, vec![ConnFrame::HandshakeDone]);
    // ...the parameters are applied, and every early epoch is discarded.
    assert_eq!(c.0.data_space.transport_parameters, Some(params()));
    assert_eq!(c.0.initial_keys.state, KeyState::Invalid);
    assert_eq!(c.0.handshake_keys.state, KeyState::Invalid);
    assert_eq!(c.0.zero_rtt_keys.state, KeyState::Invalid);
    assert_eq!(c.0.one_rtt_keys.state, KeyState::Ready);
    // The data space still accepts and decodes 1-RTT packets.
    c.0.recv_1rtt_pkt_via(packet(42, vec![Frame::Space(SpaceFrame::Ack(0))]), &socket(), pathway(1));
    assert_eq!(c.0.process_one_rtt_packet(), PipelineStep::Dispatched);
    assert_eq!(c.0.data_space.rcvd_pkt_records.rcvd, vec![42]);
}

#[test]
fn client_completing_handshake_keeps_early_epochs() {
    let mut c = new(Role::Client);
    c.0.complete_handshake(params());
    // The client waits for the peer's HandshakeDone before discarding.
    assert_eq!(c.0.data_space.transport_parameters, Some(params()));
    assert_eq!(c.0.one_rtt_keys.state, KeyState::Ready);
    assert_eq!(c.0.initial_keys.state, KeyState::Pending);
    assert!(c.0.data_space.reliable_conn_frames.is_empty());
}

#[test]
fn first_initial_packet_creates_path_and_is_recorded() {
    let mut c = new(Role::Client);
    c.0.on_keys_ready(Epoch::Initial);
    let frames = vec![
        Frame::Space(SpaceFrame::Crypto(vec![0x01, 0x00, 0x00, 0x08])),
        Frame::Space(SpaceFrame::Ack(0)),
    ];
    c.0.recv_init_pkt_via(packet(0, frames), &socket(), pathway(9));
    // A never-seen pathway got its path...
    assert_eq!(c.0.pathes.entries.len(), 1);
    assert_eq!(c.0.pathes.entries[0].pathway, pathway(9));
    // ...the packet was queued, and the pipeline decodes and records it.
    assert_eq!(c.0.process_initial_packet(), PipelineStep::Dispatched);
    let sp = c.0.initial_space.as_ref().unwrap();
    assert_eq!(sp.rcvd_pkt_records.rcvd, vec![0]);
    assert_eq!(
        sp.space_frames,
        vec![
            SpaceFrame::Crypto(vec![0x01, 0x00, 0x00, 0x08]),
            SpaceFrame::Ack(0),
        ]
    );
    assert_eq!(c.0.process_initial_packet(), PipelineStep::Idle);
}

#[test]
fn pending_keys_buffer_packets_until_ready() {
    let mut c = new(Role::Client);
    c.0.recv_init_pkt_via(packet(5, vec![Frame::Space(SpaceFrame::Ack(1))]), &socket(), pathway(1));
    assert_eq!(c.0.process_initial_packet(), PipelineStep::Buffered);
    assert_eq!(c.0.process_initial_packet(), PipelineStep::Buffered);
    assert!(c.0.initial_space.as_ref().unwrap().rcvd_pkt_records.rcvd.is_empty());
    c.0.on_keys_ready(Epoch::Initial);
    assert_eq!(c.0.process_initial_packet(), PipelineStep::Dispatched);
    assert_eq!(c.0.initial_space.as_ref().unwrap().rcvd_pkt_records.rcvd, vec![5]);
}

#[test]
fn authentication_failure_drops_the_packet_not_the_connection() {
    let mut c = new(Role::Client);
    c.0.on_keys_ready(Epoch::Initial);
    let bad = Packet { pn: 3, frames: vec![Frame::Conn(ConnFrame::MaxData(7))], auth_ok: false };
    c.0.recv_init_pkt_via(bad, &socket(), pathway(1));
    assert_eq!(c.0.process_initial_packet(), PipelineStep::Dropped);
    // Nothing was recorded or dispatched; the space continues.
    assert!(c.0.initial_space.as_ref().unwrap().rcvd_pkt_records.rcvd.is_empty());
    assert!(c.0.conn_frame_deque.is_empty());
    c.0.recv_init_pkt_via(packet(4, vec![]), &socket(), pathway(1));
    assert_eq!(c.0.process_initial_packet(), PipelineStep::Dispatched);
    assert_eq!(c.0.initial_space.as_ref().unwrap().rcvd_pkt_records.rcvd, vec![4]);
}

#[test]
fn datagram_in_initial_space_is_a_protocol_violation() {
    let mut c = new(Role::Client);
    c.0.on_keys_ready(Epoch::Initial);
    let frames = vec![
        Frame::Space(SpaceFrame::Ack(1)),
        Frame::Datagram(vec![0xde, 0xad]),
        Frame::Space(SpaceFrame::Ack(2)),
    ];
    c.0.recv_init_pkt_via(packet(8, frames), &socket(), pathway(1));
    assert_eq!(
        c.0.process_initial_packet(),
        PipelineStep::Violation(Error { kind: ErrorKind::ProtocolViolation })
    );
    let sp = c.0.initial_space.as_ref().unwrap();
    // The number was recorded and the frames before the violation were
    // dispatched in order; the rest were not.
    assert_eq!(sp.rcvd_pkt_records.rcvd, vec![8]);
    assert_eq!(sp.space_frames, vec![SpaceFrame::Ack(1)]);
    assert!(c.0.datagram_queue.is_empty());
}

#[test]
fn data_space_routes_all_three_sinks_in_packet_order() {
    let mut c = new(Role::Client);
    c.0.on_keys_ready(Epoch::OneRtt);
    let frames = vec![
        Frame::Conn(ConnFrame::MaxData(1)),
        Frame::Space(SpaceFrame::Stream(4, vec![0x68, 0x69])),
        Frame::Datagram(vec![0x01]),
        Frame::Conn(ConnFrame::DataBlocked(0)),
        Frame::Datagram(vec![0x02]),
    ];
    c.0.recv_1rtt_pkt_via(packet(1, frames), &socket(), pathway(1));
    assert_eq!(c.0.process_one_rtt_packet(), PipelineStep::Dispatched);
    assert_eq!(
        c.0.conn_frame_deque,
        vec![ConnFrame::MaxData(1), ConnFrame::DataBlocked(0)]
    );
    assert_eq!(c.0.data_space.space_frames, vec![SpaceFrame::Stream(4, vec![0x68, 0x69])]);
    assert_eq!(c.0.datagram_queue, vec![vec![0x01], vec![0x02]]);
    assert_eq!(c.0.data_space.rcvd_pkt_records.rcvd, vec![1]);
}

#[test]
fn zero_rtt_packets_feed_the_data_space() {
    let mut c = new(Role::Server);
    c.0.on_keys_ready(Epoch::ZeroRtt);
    let frames = vec![Frame::Datagram(vec![9, 9]), Frame::Space(SpaceFrame::Ack(5))];
    c.0.recv_0rtt_pkt_via(packet(2, frames), &socket(), pathway(3));
    assert_eq!(c.0.process_zero_rtt_packet(), PipelineStep::Dispatched);
    assert_eq!(c.0.data_space.rcvd_pkt_records.rcvd, vec![2]);
    assert_eq!(c.0.data_space.space_frames, vec![SpaceFrame::Ack(5)]);
    assert_eq!(c.0.datagram_queue, vec![vec![9, 9]]);
}

#[test]
fn dispatch_loop_drains_the_shared_queue_in_order() {
    let mut c = new(Role::Client);
    c.0.on_keys_ready(Epoch::OneRtt);
    let frames = vec![
        Frame::Conn(ConnFrame::MaxData(5)),
        Frame::Conn(ConnFrame::Close(0)),
    ];
    c.0.recv_1rtt_pkt_via(packet(1, frames), &socket(), pathway(1));
    assert_eq!(c.0.process_one_rtt_packet(), PipelineStep::Dispatched);
    assert_eq!(c.0.conn_frame_deque.len(), 2);
    assert_eq!(c.0.dispatch_next(), Some(Ok(DispatchOutcome::Handled)));
    assert_eq!(c.0.flow_ctrl.send_budget, 5);
    assert_eq!(c.0.state, ConnectionState::Active);
    assert_eq!(c.0.dispatch_next(), Some(Ok(DispatchOutcome::Handled)));
    assert_eq!(c.0.state, ConnectionState::Draining);
    assert_eq!(c.0.dispatch_next(), None);
}

#[test]
fn ready_keys_never_resurrect_after_discard() {
    let mut c = new(Role::Client);
    assert_eq!(c.0.dispatch_conn_frame(ConnFrame::HandshakeDone), Ok(DispatchOutcome::Handled));
    c.0.on_keys_ready(Epoch::Initial);
    c.0.on_keys_ready(Epoch::Handshake);
    c.0.on_keys_ready(Epoch::ZeroRtt);
    assert_eq!(c.0.initial_keys.state, KeyState::Invalid);
    assert_eq!(c.0.handshake_keys.state, KeyState::Invalid);
    assert_eq!(c.0.zero_rtt_keys.state, KeyState::Invalid);
    assert!(matches!(c.0.init_pkt_queue, RxPacketQueue::Discarded));
}
