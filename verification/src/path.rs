//! Network paths. A `Pathway` is a local/remote address pair; the connection
//! lazily creates and caches exactly one `Path` per `Pathway`, wiring each new
//! path to the socket handle it was first seen on and to the connection's
//! shared ack/loss observers. Look-up-or-insert never creates a duplicate.
use vstd::prelude::*;

verus! {

/// A transport address as plain values: an IP (v4 or v6, as an integer) and a
/// port.
#[derive(Clone, Copy, PartialEq, Eq, Structural, Debug)]
pub struct NetAddr {
    pub ip: u128,
    pub port: u16,
}

/// One local/remote route over which packets of this connection travel.
#[derive(Clone, Copy, PartialEq, Eq, Structural, Debug)]
pub struct Pathway {
    pub local: NetAddr,
    pub remote: NetAddr,
}

/// A handle onto the UDP socket controller a path sends through. The socket
/// itself lives outside this core; the handle carries its identity.
#[derive(Clone, Copy, PartialEq, Eq, Structural, Debug)]
pub struct SocketHandle {
    pub id: u64,
}

/// The aggregation of the three spaces' received-packet records that every
/// path consults to generate acknowledgements. Built once at connection
/// creation; its identity never changes afterwards.
#[derive(Clone, Copy, PartialEq, Eq, Structural, Debug)]
pub struct AckObserver {
    pub id: u64,
}

/// The aggregation of the three spaces' loss handlers that every path reports
/// suspected losses to. Built once at connection creation; its identity never
/// changes afterwards.
#[derive(Clone, Copy, PartialEq, Eq, Structural, Debug)]
pub struct LossObserver {
    pub id: u64,
}

/// One network path of the connection: the route, the socket it sends
/// through, its retransmission-timer granularity in milliseconds (fixed at
/// creation), and the shared observers.
#[derive(Clone, Copy, PartialEq, Eq, Structural, Debug)]
pub struct Path {
    pub pathway: Pathway,
    pub usc: SocketHandle,
    pub rto_granularity_millis: u64,
    pub ack_observer: AckObserver,
    pub loss_observer: LossObserver,
}

/// The retransmission-timer granularity every new path starts with.
pub const RTO_GRANULARITY_MILLIS: u64 = 100;

/// The entries after a look-up-or-insert of `p`: unchanged if `p.pathway` is
/// already served, extended by `p` otherwise.
pub open spec fn inserted(s: Seq<Path>, p: Path) -> Seq<Path> {
    if has_pathway(s, p.pathway) {
        s
    } else {
        s.push(p)
    }
}

/// The connection's mapping from `Pathway` to `Path`. Keys are unique; no
/// ordering is guaranteed or relied upon.
#[derive(Debug)]
pub struct PathMap {
    pub entries: Vec<Path>,
}

/// Whether some entry of `s` serves `pw`.
pub open spec fn has_pathway(s: Seq<Path>, pw: Pathway) -> bool {
    exists|i: int| 0 <= i < s.len() && s[i].pathway == pw
}

/// The entry of `s` that serves `pw`: the first match, which under
/// `PathMap::wf` is the only one. Total; meaningful only when `has_pathway`
/// holds.
pub open spec fn path_at(s: Seq<Path>, pw: Pathway) -> Path
    decreases s.len(),
{
    if s.len() == 0 {
        Path {
            pathway: pw,
            usc: SocketHandle { id: 0 },
            rto_granularity_millis: 0,
            ack_observer: AckObserver { id: 0 },
            loss_observer: LossObserver { id: 0 },
        }
    } else if s.first().pathway == pw {
        s.first()
    } else {
        path_at(s.drop_first(), pw)
    }
}

/// The entry found for `pw` serves `pw`.
pub proof fn lemma_path_at_serves(s: Seq<Path>, pw: Pathway)
    requires
        has_pathway(s, pw),
    ensures
        path_at(s, pw).pathway == pw,
        exists|i: int| 0 <= i < s.len() && s[i] == path_at(s, pw),
    decreases s.len(),
{
    if s.len() == 0 {
    } else if s.first().pathway == pw {
        assert(s[0] == path_at(s, pw));
    } else {
        let j = choose|i: int| 0 <= i < s.len() && s[i].pathway == pw;
        assert(s.drop_first()[j - 1].pathway == pw);
        lemma_path_at_serves(s.drop_first(), pw);
        let k = choose|i: int|
            0 <= i < s.drop_first().len() && s.drop_first()[i] == path_at(s.drop_first(), pw);
        assert(s[k + 1] == path_at(s, pw));
    }
}

/// Appending an entry for a pathway the map does not serve leaves every other
/// pathway's entry where it was, and serves the new one.
pub proof fn lemma_path_at_push(s: Seq<Path>, p: Path)
    ensures
        has_pathway(s.push(p), p.pathway),
        !has_pathway(s, p.pathway) ==> path_at(s.push(p), p.pathway) == p,
        forall|pw: Pathway|
            has_pathway(s, pw) ==> has_pathway(s.push(p), pw) && path_at(s.push(p), pw) == path_at(
                s,
                pw,
            ),
    decreases s.len(),
{
    assert(s.push(p)[s.len() as int].pathway == p.pathway);
    if s.len() == 0 {
        assert(s.push(p).first() == p);
    } else {
        lemma_path_at_push(s.drop_first(), p);
        assert(s.push(p).drop_first() =~= s.drop_first().push(p));
        assert forall|pw: Pathway| has_pathway(s, pw) implies has_pathway(s.push(p), pw)
            && path_at(s.push(p), pw) == path_at(s, pw) by {
            let i = choose|i: int| 0 <= i < s.len() && s[i].pathway == pw;
            assert(s.push(p)[i].pathway == pw);
            if s.first().pathway == pw {
                assert(s.push(p).first() == s.first());
            } else {
                assert(i != 0);
                assert(s.drop_first()[i - 1].pathway == pw);
                assert(has_pathway(s.drop_first(), pw));
                assert(path_at(s.push(p), pw) == path_at(s.drop_first().push(p), pw));
                assert(path_at(s.drop_first().push(p), pw) == path_at(s.drop_first(), pw));
                assert(path_at(s, pw) == path_at(s.drop_first(), pw));
            }
        }
    }
}

impl PathMap {
    /// Well-formedness: each pathway has at most one entry.
    pub open spec fn wf(&self) -> bool {
        forall|i: int, j: int|
            0 <= i < j < self.entries@.len() ==> self.entries@[i].pathway
                != self.entries@[j].pathway
    }

    /// An empty map.
    pub fn empty() -> (m: PathMap)
        ensures
            m.entries@ == Seq::<Path>::empty(),
            m.wf(),
    {
        PathMap { entries: Vec::new() }
    }

    /// Find the entry serving `pw`, if any.
    fn find(&self, pw: Pathway) -> (r: Option<usize>)
        ensures
            match r {
                Some(i) => 0 <= i < self.entries@.len() && self.entries@[i as int].pathway == pw
                    && self.entries@[i as int] == path_at(self.entries@, pw),
                None => !has_pathway(self.entries@, pw),
            },
    {
        let mut i: usize = 0;
        while i < self.entries.len()
            invariant
                0 <= i <= self.entries@.len(),
                forall|j: int| 0 <= j < i ==> self.entries@[j].pathway != pw,
            decreases self.entries@.len() - i,
        {
            if self.entries[i].pathway == pw {
                proof {
                    lemma_path_at_first_match(self.entries@, pw, i as int);
                }
                return Some(i);
            }
            i += 1;
        }
        None
    }

    /// Look up the path serving `pw`, creating and caching `fresh` for it
    /// first if the pathway was never seen. Idempotent: a second call for the
    /// same pathway returns the entry the first call installed and leaves the
    /// map unchanged.
    pub fn get_or_insert(&mut self, pw: Pathway, fresh: Path) -> (r: Path)
        requires
            old(self).wf(),
            fresh.pathway == pw,
        ensures
            final(self).wf(),
            final(self).entries@ == inserted(old(self).entries@, fresh),
            has_pathway(final(self).entries@, pw),
            r == path_at(final(self).entries@, pw),
            r.pathway == pw,
    {
        match self.find(pw) {
            Some(i) => {
                let r = self.entries[i];
                proof {
                    lemma_path_at_serves(self.entries@, pw);
                }
                r
            },
            None => {
                proof {
                    lemma_path_at_push(self.entries@, fresh);
                }
                self.entries.push(fresh);
                fresh
            },
        }
    }
}

/// When the entries before `i` all miss `pw` and entry `i` serves it, entry
/// `i` is the one `path_at` names.
pub proof fn lemma_path_at_first_match(s: Seq<Path>, pw: Pathway, i: int)
    requires
        0 <= i < s.len(),
        s[i].pathway == pw,
        forall|j: int| 0 <= j < i ==> s[j].pathway != pw,
    ensures
        path_at(s, pw) == s[i],
    decreases i,
{
    if i == 0 {
    } else {
        assert(forall|j: int| 0 <= j < i - 1 ==> s.drop_first()[j].pathway != pw);
        lemma_path_at_first_match(s.drop_first(), pw, i - 1);
    }
}

/// Two calls with the same pathway return the same handle: after the first
/// look-up-or-insert installed `p1`, a second with any `p2` for the same
/// pathway changes nothing and finds the same entry.
pub proof fn lemma_get_path_idempotent(m: PathMap, pw: Pathway, p1: Path, p2: Path)
    requires
        m.wf(),
        p1.pathway == pw,
        p2.pathway == pw,
    ensures
        inserted(inserted(m.entries@, p1), p2) == inserted(m.entries@, p1),
        path_at(inserted(inserted(m.entries@, p1), p2), pw) == path_at(
            inserted(m.entries@, p1),
            pw,
        ),
{
    lemma_path_at_push(m.entries@, p1);
}

/// Two different pathways are served by distinct paths.
pub proof fn lemma_distinct_pathways_distinct_paths(m: PathMap, pw1: Pathway, pw2: Pathway)
    requires
        m.wf(),
        has_pathway(m.entries@, pw1),
        has_pathway(m.entries@, pw2),
        pw1 != pw2,
    ensures
        path_at(m.entries@, pw1) != path_at(m.entries@, pw2),
{
    lemma_path_at_serves(m.entries@, pw1);
    lemma_path_at_serves(m.entries@, pw2);
}

} // verus!
