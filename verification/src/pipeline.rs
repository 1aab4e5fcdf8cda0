//! The per-space packet pipeline: bridges a space's raw-packet receive queue
//! to decoded frames. For each accepted packet the pipeline records the
//! packet number and then routes every frame, in the order it appears in the
//! packet, to its sink: connection frames to the shared connection-frame
//! queue, space frames to the space's own queue, datagrams to the datagram
//! queue. A space that offers no datagram sink treats a datagram frame as a
//! protocol violation: a connection-level error, surfaced after the frames
//! before it were already dispatched.
use vstd::prelude::*;
use crate::error::{Error, ErrorKind};
use crate::frame::{ConnFrame, Frame, SpaceFrame};
use crate::packet::Packet;
use crate::path::Path;

verus! {

/// A space's raw-packet receive queue: either active, holding the packets
/// (with their paths) not yet consumed by the pipeline, or irrevocably
/// discarded together with the space's keys. Once discarded, every further
/// packet of the space is silently dropped.
#[derive(Clone, PartialEq, Eq, Debug)]
pub enum RxPacketQueue {
    Active(Vec<(Packet, Path)>),
    Discarded,
}

impl RxPacketQueue {
    /// Whether the queue still accepts packets.
    pub open spec fn is_active(&self) -> bool {
        match self {
            RxPacketQueue::Active(_) => true,
            RxPacketQueue::Discarded => false,
        }
    }

    /// The queued packets; empty once discarded.
    pub open spec fn packets(&self) -> Seq<(Packet, Path)> {
        match self {
            RxPacketQueue::Active(q) => q@,
            RxPacketQueue::Discarded => Seq::empty(),
        }
    }

    /// A fresh, active, empty queue.
    pub fn new_active() -> (q: RxPacketQueue)
        ensures
            q.is_active(),
            q.packets() == Seq::<(Packet, Path)>::empty(),
    {
        RxPacketQueue::Active(Vec::new())
    }

    /// Take the packet at the head of the queue, if the queue is active and
    /// holds one; an empty or discarded queue is left untouched.
    pub fn pop_front(&mut self) -> (r: Option<(Packet, Path)>)
        ensures
            old(self).is_active() && old(self).packets().len() > 0 ==> ({
                &&& r == Some(old(self).packets()[0])
                &&& final(self).is_active()
                &&& final(self).packets() == old(self).packets().drop_first()
            }),
            old(self).is_active() && old(self).packets().len() == 0 ==> r == None::<(Packet, Path)>
                && *final(self) == *old(self),
            !old(self).is_active() ==> r == None::<(Packet, Path)> && *final(self) == *old(self),
    {
        match self {
            RxPacketQueue::Active(q) => {
                if q.len() > 0 {
                    let pp = q.remove(0);
                    proof {
                        assert(q@ =~= old(self).packets().drop_first());
                    }
                    Some(pp)
                } else {
                    None
                }
            },
            RxPacketQueue::Discarded => None,
        }
    }
}

/// What one pipeline step did with the packet at the head of its queue.
#[derive(Clone, Copy, PartialEq, Eq, Structural, Debug)]
pub enum PipelineStep {
    /// Nothing to do: the queue is empty or the space is discarded.
    Idle,
    /// The keys are still pending; the packet stays buffered until they
    /// arrive.
    Buffered,
    /// The packet failed authentication or its keys are gone: it was
    /// discarded, and the space continues.
    Dropped,
    /// The packet was decoded, its number recorded, and all its frames
    /// routed.
    Dispatched,
    /// A frame type this space must not carry was met: a connection-level
    /// error. Frames before it were already routed.
    Violation(Error),
}

/// Whether a space offering a datagram sink exactly when `allow_datagram`
/// can route this frame.
pub open spec fn frame_routable(f: Frame, allow_datagram: bool) -> bool {
    match f {
        Frame::Datagram(_) => allow_datagram,
        _ => true,
    }
}

/// How many frames, from the front, the space can route before the first
/// unroutable one; the whole length when every frame is routable.
pub open spec fn routable_len(s: Seq<Frame>, allow_datagram: bool) -> int
    decreases s.len(),
{
    if s.len() == 0 {
        0
    } else if frame_routable(s.first(), allow_datagram) {
        1 + routable_len(s.drop_first(), allow_datagram)
    } else {
        0
    }
}

/// The connection frames of `s`, in order.
pub open spec fn conn_frames_of(s: Seq<Frame>) -> Seq<ConnFrame>
    decreases s.len(),
{
    if s.len() == 0 {
        Seq::empty()
    } else {
        match s.last() {
            Frame::Conn(f) => conn_frames_of(s.drop_last()).push(f),
            _ => conn_frames_of(s.drop_last()),
        }
    }
}

/// The space frames of `s`, in order.
pub open spec fn space_frames_of(s: Seq<Frame>) -> Seq<SpaceFrame>
    decreases s.len(),
{
    if s.len() == 0 {
        Seq::empty()
    } else {
        match s.last() {
            Frame::Space(f) => space_frames_of(s.drop_last()).push(f),
            _ => space_frames_of(s.drop_last()),
        }
    }
}

/// The datagrams of `s`, in order.
pub open spec fn datagrams_of(s: Seq<Frame>) -> Seq<Vec<u8>>
    decreases s.len(),
{
    if s.len() == 0 {
        Seq::empty()
    } else {
        match s.last() {
            Frame::Datagram(d) => datagrams_of(s.drop_last()).push(d),
            _ => datagrams_of(s.drop_last()),
        }
    }
}

/// `routable_len` is the index of the first unroutable frame: if everything
/// before `i` routes and `i` (when it exists) does not, the routable prefix
/// is exactly `i` long.
pub proof fn lemma_routable_len_at(s: Seq<Frame>, allow_datagram: bool, i: int)
    requires
        0 <= i <= s.len(),
        forall|j: int| 0 <= j < i ==> frame_routable(s[j], allow_datagram),
        i < s.len() ==> !frame_routable(s[i], allow_datagram),
    ensures
        routable_len(s, allow_datagram) == i,
    decreases s.len(),
{
    if s.len() == 0 {
    } else if i == 0 {
    } else {
        assert(frame_routable(s[0], allow_datagram));
        assert(forall|j: int|
            0 <= j < i - 1 ==> s.drop_first()[j] == s[j + 1] && frame_routable(
                s[j + 1],
                allow_datagram,
            ));
        assert(i - 1 < s.drop_first().len() ==> s.drop_first()[i - 1] == s[i]);
        lemma_routable_len_at(s.drop_first(), allow_datagram, i - 1);
    }
}

/// Extending a prefix by one frame extends each sink's output by that
/// frame's contribution, in place.
pub proof fn lemma_outputs_take_step(s: Seq<Frame>, i: int)
    requires
        0 <= i < s.len(),
    ensures
        conn_frames_of(s.take(i + 1)) == (match s[i] {
            Frame::Conn(f) => conn_frames_of(s.take(i)).push(f),
            _ => conn_frames_of(s.take(i)),
        }),
        space_frames_of(s.take(i + 1)) == (match s[i] {
            Frame::Space(f) => space_frames_of(s.take(i)).push(f),
            _ => space_frames_of(s.take(i)),
        }),
        datagrams_of(s.take(i + 1)) == (match s[i] {
            Frame::Datagram(d) => datagrams_of(s.take(i)).push(d),
            _ => datagrams_of(s.take(i)),
        }),
{
    assert(s.take(i + 1).drop_last() =~= s.take(i));
    assert(s.take(i + 1).last() == s[i]);
}

/// The routable prefix is well formed: every frame in it routes, and the
/// frame just past it (when the prefix is not the whole packet) does not.
pub proof fn lemma_routable_prefix(s: Seq<Frame>, allow_datagram: bool)
    ensures
        0 <= routable_len(s, allow_datagram) <= s.len(),
        forall|j: int|
            0 <= j < routable_len(s, allow_datagram) ==> frame_routable(s[j], allow_datagram),
        routable_len(s, allow_datagram) < s.len() ==> !frame_routable(
            s[routable_len(s, allow_datagram)],
            allow_datagram,
        ),
    decreases s.len(),
{
    if s.len() == 0 {
    } else if frame_routable(s.first(), allow_datagram) {
        lemma_routable_prefix(s.drop_first(), allow_datagram);
        assert(forall|j: int| 1 <= j < s.len() ==> s[j] == s.drop_first()[j - 1]);
    }
}

/// How many frames, from the front, this space can route before the first
/// frame it cannot carry.
fn scan_routable(frames: &Vec<Frame>, allow_datagram: bool) -> (r: usize)
    ensures
        r as int == routable_len(frames@, allow_datagram),
{
    let mut j: usize = 0;
    while j < frames.len()
        invariant
            0 <= j <= frames@.len(),
            forall|k: int| 0 <= k < j ==> frame_routable(frames@[k], allow_datagram),
        decreases frames@.len() - j,
    {
        let routable = match &frames[j] {
            Frame::Datagram(_) => allow_datagram,
            _ => true,
        };
        if !routable {
            proof {
                lemma_routable_len_at(frames@, allow_datagram, j as int);
            }
            return j;
        }
        j += 1;
    }
    proof {
        lemma_routable_len_at(frames@, allow_datagram, j as int);
    }
    j
}

/// Route every frame of a decoded packet, in order, to its sink, stopping at
/// the first frame this space cannot carry. Returns the protocol violation
/// if one was met, after the frames before it were dispatched.
pub fn dispatch_frames(
    frames: &mut Vec<Frame>,
    allow_datagram: bool,
    conn_deque: &mut Vec<ConnFrame>,
    space_sink: &mut Vec<SpaceFrame>,
    datagram_sink: &mut Vec<Vec<u8>>,
) -> (r: Option<Error>)
    ensures
        ({
            let rl = routable_len(old(frames)@, allow_datagram);
            &&& final(conn_deque)@ == old(conn_deque)@ + conn_frames_of(old(frames)@.take(rl))
            &&& final(space_sink)@ == old(space_sink)@ + space_frames_of(old(frames)@.take(rl))
            &&& final(datagram_sink)@ == old(datagram_sink)@ + datagrams_of(old(frames)@.take(rl))
            &&& rl == old(frames)@.len() ==> r == None::<Error>
            &&& rl < old(frames)@.len() ==> r == Some(Error { kind: ErrorKind::ProtocolViolation })
        }),
{
    let ghost os = old(frames)@;
    let n = frames.len();
    let k = scan_routable(frames, allow_datagram);
    proof {
        lemma_routable_prefix(os, allow_datagram);
        assert(os.take(0) =~= Seq::<Frame>::empty());
        assert(conn_deque@ == conn_deque@ + conn_frames_of(os.take(0)));
        assert(space_sink@ == space_sink@ + space_frames_of(os.take(0)));
        assert(datagram_sink@ == datagram_sink@ + datagrams_of(os.take(0)));
    }
    let mut j: usize = 0;
    while j < k
        invariant
            0 <= j <= k,
            k as int == routable_len(os, allow_datagram),
            k <= n == os.len(),
            forall|k2: int| 0 <= k2 < k ==> frame_routable(os[k2], allow_datagram),
            frames@ == os.subrange(j as int, os.len() as int),
            conn_deque@ == old(conn_deque)@ + conn_frames_of(os.take(j as int)),
            space_sink@ == old(space_sink)@ + space_frames_of(os.take(j as int)),
            datagram_sink@ == old(datagram_sink)@ + datagrams_of(os.take(j as int)),
        decreases k - j,
    {
        let f = frames.remove(0);
        proof {
            assert(os.subrange(j as int, os.len() as int)[0] == os[j as int]);
            assert(f == os[j as int]);
            assert(frames@ =~= os.subrange(j as int + 1, os.len() as int));
            lemma_outputs_take_step(os, j as int);
        }
        match f {
            Frame::Conn(cf) => {
                conn_deque.push(cf);
            },
            Frame::Space(sf) => {
                space_sink.push(sf);
            },
            Frame::Datagram(d) => {
                proof {
                    assert(frame_routable(os[j as int], allow_datagram));
                }
                if allow_datagram {
                    datagram_sink.push(d);
                } else {
                    // A datagram never stands inside the routable prefix of
                    // a space that offers no datagram sink.
                    proof {
                        assert(false);
                    }
                }
            },
        }
        j += 1;
    }
    if k < n {
        Some(Error::protocol_violation())
    } else {
        proof {
            assert(os.take(k as int) =~= os);
        }
        None
    }
}

} // verus!
