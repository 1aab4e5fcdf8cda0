//! Packet-number spaces. Each space keeps the record of packet numbers its
//! pipeline has accepted (the single point of truth for what has been
//! received, and the source of acknowledgements) and the queue of space
//! frames awaiting the space's own consumers. The data space additionally
//! carries the outgoing reliable connection-frame queue and, once the
//! handshake yields them, the negotiated transport parameters.
use vstd::prelude::*;
use crate::frame::{ConnFrame, SpaceFrame, TransportParameters};

verus! {

/// Per-space received-packet-number tracking: the packet numbers the
/// pipeline has recorded, in the order it accepted them.
#[derive(Clone, PartialEq, Eq, Debug)]
pub struct SpaceRecords {
    pub rcvd: Vec<u64>,
}

impl SpaceRecords {
    /// A record with nothing received yet.
    pub fn new() -> (r: SpaceRecords)
        ensures
            r.rcvd@ == Seq::<u64>::empty(),
    {
        SpaceRecords { rcvd: Vec::new() }
    }

    /// Record one received packet number for acknowledgement purposes.
    pub fn register_pn(&mut self, pn: u64)
        ensures
            final(self).rcvd@ == old(self).rcvd@.push(pn),
    {
        self.rcvd.push(pn);
    }
}

/// The Initial space.
#[derive(Clone, PartialEq, Eq, Debug)]
pub struct InitialSpace {
    pub rcvd_pkt_records: SpaceRecords,
    /// Space frames dispatched by the pipeline, awaiting the space's
    /// consumers (the crypto stream among them).
    pub space_frames: Vec<SpaceFrame>,
}

impl InitialSpace {
    /// A fresh, empty Initial space.
    pub fn new() -> (s: InitialSpace)
        ensures
            s.rcvd_pkt_records.rcvd@ == Seq::<u64>::empty(),
            s.space_frames@ == Seq::<SpaceFrame>::empty(),
    {
        InitialSpace { rcvd_pkt_records: SpaceRecords::new(), space_frames: Vec::new() }
    }
}

/// The Handshake space.
#[derive(Clone, PartialEq, Eq, Debug)]
pub struct HandshakeSpace {
    pub rcvd_pkt_records: SpaceRecords,
    /// Space frames dispatched by the pipeline, awaiting the space's
    /// consumers.
    pub space_frames: Vec<SpaceFrame>,
}

impl HandshakeSpace {
    /// A fresh, empty Handshake space.
    pub fn new() -> (s: HandshakeSpace)
        ensures
            s.rcvd_pkt_records.rcvd@ == Seq::<u64>::empty(),
            s.space_frames@ == Seq::<SpaceFrame>::empty(),
    {
        HandshakeSpace { rcvd_pkt_records: SpaceRecords::new(), space_frames: Vec::new() }
    }
}

/// The data space, serving both 0-RTT and 1-RTT traffic. Never discarded
/// for the life of the connection.
#[derive(Clone, PartialEq, Eq, Debug)]
pub struct DataSpace {
    pub rcvd_pkt_records: SpaceRecords,
    /// Space frames dispatched by the pipelines, awaiting the space's
    /// consumers.
    pub space_frames: Vec<SpaceFrame>,
    /// Outgoing connection frames to be sent reliably, in order.
    pub reliable_conn_frames: Vec<ConnFrame>,
    /// The negotiated settings, once the handshake has yielded them.
    pub transport_parameters: Option<TransportParameters>,
}

impl DataSpace {
    /// A fresh, empty data space with no parameters negotiated yet.
    pub fn new() -> (s: DataSpace)
        ensures
            s.rcvd_pkt_records.rcvd@ == Seq::<u64>::empty(),
            s.space_frames@ == Seq::<SpaceFrame>::empty(),
            s.reliable_conn_frames@ == Seq::<ConnFrame>::empty(),
            s.transport_parameters == None::<TransportParameters>,
    {
        DataSpace {
            rcvd_pkt_records: SpaceRecords::new(),
            space_frames: Vec::new(),
            reliable_conn_frames: Vec::new(),
            transport_parameters: None,
        }
    }

    /// Adopt the transport parameters the handshake negotiated.
    pub fn accept_transmute_parameters(&mut self, params: TransportParameters)
        ensures
            *final(self) == (DataSpace { transport_parameters: Some(params), ..*old(self) }),
    {
        self.transport_parameters = Some(params);
    }
}

} // verus!
