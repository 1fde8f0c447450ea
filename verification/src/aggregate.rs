//! The aggregator: running per-peer totals across repeated transmissions.
//!
//! `AvgStats` keeps one accumulator per distinct peer identity. Every
//! reported window adds its elapsed time, bytes and operations to its
//! peer's entry; entries are never removed during a run. The averages are
//! read out only after all repeats complete, and each is derived once from
//! the entry's summed raw totals — never by averaging per-window ratios,
//! which would bias the result toward short windows.

use vstd::prelude::*;
use crate::stats::{milli_gbps_of, milli_mops_of, PeerInfo, Stats};

verus! {

/// An accumulator after one more window: elapsed time, bytes and
/// operations each add up; the `summary` tag is kept.
pub open spec fn absorbed(acc: Stats, window: Stats) -> Stats {
    Stats {
        summary: acc.summary,
        period_nanos: (acc.period_nanos + window.period_nanos) as u64,
        bytes: (acc.bytes + window.bytes) as usize,
        operations: (acc.operations + window.operations) as usize,
    }
}

/// The entry a peer's first window creates: that window's totals, tagged
/// as a summary-to-be.
pub open spec fn first_entry(window: Stats) -> Stats {
    Stats {
        summary: true,
        period_nanos: window.period_nanos,
        bytes: window.bytes,
        operations: window.operations,
    }
}

/// No two entries share a peer identity.
pub open spec fn distinct_keys(entries: Seq<((Seq<char>, Seq<char>), Stats)>) -> bool {
    forall|i: int, j: int|
        0 <= i < j < entries.len() ==> entries[i].0 != entries[j].0
}

/// Per-peer accumulators, in the order the peers were first seen.
pub struct AvgStats {
    peers: Vec<PeerInfo>,
    totals: Vec<Stats>,
}

impl View for AvgStats {
    type V = Seq<((Seq<char>, Seq<char>), Stats)>;

    closed spec fn view(&self) -> Seq<((Seq<char>, Seq<char>), Stats)> {
        Seq::new(self.peers@.len(), |i: int| (self.peers@[i]@, self.totals@[i]))
    }
}

impl AvgStats {
    /// One totals entry per peer, and no peer twice.
    pub closed spec fn wf(&self) -> bool {
        &&& self.peers@.len() == self.totals@.len()
        &&& distinct_keys(self@)
    }

    /// An aggregator that has seen nothing yet.
    pub fn new() -> (r: AvgStats)
        ensures
            r@ == Seq::<((Seq<char>, Seq<char>), Stats)>::empty(),
            r.wf(),
    {
        let r = AvgStats { peers: Vec::new(), totals: Vec::new() };
        proof {
            assert(r@ =~= Seq::<((Seq<char>, Seq<char>), Stats)>::empty());
        }
        r
    }

    /// Whether `peer`'s accumulator can absorb `window` without its
    /// counters overflowing. `update` demands this; a caller that cannot
    /// know it tests it first.
    pub fn can_absorb(&self, peer: &PeerInfo, window: &Stats) -> (r: bool)
        requires
            self.wf(),
        ensures
            r == (forall|i: int|
                #![auto]
                0 <= i < self@.len() && self@[i].0 == peer@ ==> {
                    &&& self@[i].1.period_nanos + window.period_nanos <= u64::MAX
                    &&& self@[i].1.bytes + window.bytes <= usize::MAX
                    &&& self@[i].1.operations + window.operations <= usize::MAX
                }),
    {
        let n = self.peers.len();
        let mut i: usize = 0;
        while i < n
            invariant
                self.wf(),
                n == self@.len(),
                i <= n,
                forall|j: int| 0 <= j < i ==> self@[j].0 != peer@,
            decreases n - i,
        {
            if self.peers[i].matches(peer) {
                let acc = self.totals[i];
                let fits = acc.period_nanos <= u64::MAX - window.period_nanos
                    && acc.bytes <= usize::MAX - window.bytes
                    && acc.operations <= usize::MAX - window.operations;
                proof {
                    assert(self@[i as int].1 == acc);
                    assert(forall|j: int|
                        0 <= j < self@.len() && j != i ==> self@[j].0 != self@[i as int].0);
                }
                return fits;
            }
            i = i + 1;
        }
        true
    }

    /// Finds or creates the accumulator entry for `peer` and adds the
    /// window's elapsed time, bytes and operations to it. Entries of other
    /// peers are untouched; a first window appends its peer's entry at the
    /// end.
    pub fn update(&mut self, peer: &PeerInfo, window: &Stats)
        requires
            old(self).wf(),
            forall|i: int|
                #![auto]
                0 <= i < old(self)@.len() && old(self)@[i].0 == peer@ ==> {
                    &&& old(self)@[i].1.period_nanos + window.period_nanos <= u64::MAX
                    &&& old(self)@[i].1.bytes + window.bytes <= usize::MAX
                    &&& old(self)@[i].1.operations + window.operations <= usize::MAX
                },
        ensures
            final(self).wf(),
            (exists|i: int| 0 <= i < old(self)@.len() && old(self)@[i].0 == peer@)
                ==> (exists|i: int|
                #![auto]
                {
                    &&& 0 <= i < old(self)@.len()
                    &&& old(self)@[i].0 == peer@
                    &&& final(self)@ == old(self)@.update(
                        i,
                        (peer@, absorbed(old(self)@[i].1, *window)),
                    )
                }),
            (forall|i: int| #![auto] 0 <= i < old(self)@.len() ==> old(self)@[i].0 != peer@)
                ==> final(self)@ == old(self)@.push((peer@, first_entry(*window))),
    {
        let n = self.peers.len();
        let mut i: usize = 0;
        while i < n
            invariant
                self.wf(),
                *self == *old(self),
                n == self@.len(),
                i <= n,
                forall|j: int| 0 <= j < i ==> self@[j].0 != peer@,
                forall|k: int|
                    #![auto]
                    0 <= k < old(self)@.len() && old(self)@[k].0 == peer@ ==> {
                        &&& old(self)@[k].1.period_nanos + window.period_nanos <= u64::MAX
                        &&& old(self)@[k].1.bytes + window.bytes <= usize::MAX
                        &&& old(self)@[k].1.operations + window.operations <= usize::MAX
                    },
            decreases n - i,
        {
            if self.peers[i].matches(peer) {
                let mut acc = self.totals[i];
                proof {
                    assert(old(self)@[i as int].0 == peer@);
                    assert(old(self)@[i as int].1 == acc);
                }
                acc.update(window);
                self.totals[i] = acc;
                proof {
                    assert(self@ =~= old(self)@.update(
                        i as int,
                        (peer@, absorbed(old(self)@[i as int].1, *window)),
                    ));
                    assert(forall|j: int|
                        0 <= j < self@.len() ==> self@[j].0 == old(self)@[j].0);
                }
                return ;
            }
            i = i + 1;
        }
        self.peers.push(peer.clone());
        self.totals.push(Stats::summary(window.period_nanos, window.bytes, window.operations));
        proof {
            assert(self@ =~= old(self)@.push((peer@, first_entry(*window))));
            assert(forall|j: int|
                0 <= j < old(self)@.len() ==> self@[j].0 == old(self)@[j].0);
        }
    }

    /// How many distinct peers have been seen.
    pub fn len(&self) -> (r: usize)
        ensures
            r == self@.len(),
    {
        self.peers.len()
    }

    /// The peer identity of the entry at `index` (first-seen order).
    pub fn peer_at(&self, index: usize) -> (r: &PeerInfo)
        requires
            index < self@.len(),
        ensures
            r@ == self@[index as int].0,
    {
        &self.peers[index]
    }

    /// The raw cumulative totals of the entry at `index`.
    pub fn totals_at(&self, index: usize) -> (r: Stats)
        requires
            self.wf(),
            index < self@.len(),
        ensures
            r == self@[index as int].1,
    {
        self.totals[index]
    }

    /// The averages of the entry at `index`, in thousandths of Gbps and of
    /// Mops: each ratio is derived once, from the entry's summed raw
    /// totals.
    pub fn averages_at(&self, index: usize) -> (r: (u128, u128))
        requires
            self.wf(),
            index < self@.len(),
        ensures
            r.0 == milli_gbps_of(self@[index as int].1.bytes as int, self@[index as int].1.period_nanos as int),
            r.1 == milli_mops_of(self@[index as int].1.operations as int, self@[index as int].1.period_nanos as int),
    {
        let totals = self.totals[index];
        (totals.milli_gbps(), totals.milli_mops())
    }
}

} // verus!
