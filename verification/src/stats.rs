//! Measurement model: connection endpoints and per-window statistics.

use vstd::prelude::*;

verus! {

/// Read at most this many bytes per receive call.
pub const RECV_BUF_SIZE: usize = 128 * 1024;

/// A receiver reports statistics after accumulating this many bytes.
pub const RECV_REPORT_INTERVAL: usize = 200 * 1024 * 1024;

/// Identifies one logical connection direction by a source and a
/// destination tag. Stream transports report real socket addresses;
/// message-queue transports report symbolic names such as "local" and
/// "remote". Immutable once constructed.
pub struct PeerInfo {
    src: String,
    dest: String,
}

impl View for PeerInfo {
    type V = (Seq<char>, Seq<char>);

    closed spec fn view(&self) -> (Seq<char>, Seq<char>) {
        (self.src@, self.dest@)
    }
}

impl PeerInfo {
    pub fn new(src: &str, dest: &str) -> (r: PeerInfo)
        ensures
            r@ == (src@, dest@),
    {
        PeerInfo { src: src.to_owned(), dest: dest.to_owned() }
    }

    /// The source tag, for display.
    pub fn src(&self) -> (r: &String)
        ensures
            r@ == self@.0,
    {
        &self.src
    }

    /// The destination tag, for display.
    pub fn dest(&self) -> (r: &String)
        ensures
            r@ == self@.1,
    {
        &self.dest
    }

    /// Whether two peer identities name the same (source, destination) pair.
    pub fn matches(&self, other: &PeerInfo) -> (r: bool)
        ensures
            r == (self@ == other@),
    {
        let same = self.src == other.src && self.dest == other.dest;
        proof {
            if self.src@ == other.src@ && self.dest@ == other.dest@ {
                assert(self@ == other@);
            }
        }
        same
    }
}

impl Clone for PeerInfo {
    fn clone(&self) -> (r: Self)
        ensures
            r@ == self@,
    {
        PeerInfo { src: self.src.clone(), dest: self.dest.clone() }
    }
}

/// One measurement window: how many bytes and transport operations a
/// transfer performed over an elapsed period, recorded in nanoseconds.
/// `summary` distinguishes a final cumulative report from a periodic
/// partial report.
#[derive(Clone, Copy, Debug, PartialEq, Eq, Structural)]
pub struct Stats {
    pub summary: bool,
    pub period_nanos: u64,
    pub bytes: usize,
    pub operations: usize,
}

/// Throughput in thousandths of gigabits per second, derived from raw
/// totals: `bytes * 8 / seconds / 2^30`, scaled by 1000 and truncated.
/// A zero-length window has no defined rate and reports 0.
pub open spec fn milli_gbps_of(bytes: int, nanos: int) -> int {
    if nanos == 0 {
        0
    } else {
        (bytes * 8_000_000_000_000) / (nanos * 1_073_741_824)
    }
}

/// Operation rate in thousandths of mega-operations per second:
/// `operations / seconds / 10^6`, scaled by 1000 and truncated.
/// A zero-length window has no defined rate and reports 0.
pub open spec fn milli_mops_of(operations: int, nanos: int) -> int {
    if nanos == 0 {
        0
    } else {
        (operations * 1_000_000) / nanos
    }
}

impl Stats {
    /// An empty accumulator, ready to fold windows into.
    pub fn zero(summary: bool) -> (r: Stats)
        ensures
            r.summary == summary,
            r.period_nanos == 0,
            r.bytes == 0,
            r.operations == 0,
    {
        Stats { summary, period_nanos: 0, bytes: 0, operations: 0 }
    }

    /// A final report covering an entire connection or run lifetime.
    pub fn summary(period_nanos: u64, bytes: usize, operations: usize) -> (r: Stats)
        ensures
            r == (Stats { summary: true, period_nanos, bytes, operations }),
    {
        Stats { summary: true, period_nanos, bytes, operations }
    }

    /// A periodic report covering a sub-window of an ongoing transfer.
    pub fn partial(period_nanos: u64, bytes: usize, operations: usize) -> (r: Stats)
        ensures
            r == (Stats { summary: false, period_nanos, bytes, operations }),
    {
        Stats { summary: false, period_nanos, bytes, operations }
    }

    /// Folds one window into this accumulator: elapsed time, bytes and
    /// operations each add up; the `summary` tag is kept.
    pub fn update(&mut self, partial: &Stats)
        requires
            old(self).period_nanos + partial.period_nanos <= u64::MAX,
            old(self).bytes + partial.bytes <= usize::MAX,
            old(self).operations + partial.operations <= usize::MAX,
        ensures
            final(self).summary == old(self).summary,
            final(self).period_nanos == old(self).period_nanos + partial.period_nanos,
            final(self).bytes == old(self).bytes + partial.bytes,
            final(self).operations == old(self).operations + partial.operations,
    {
        self.period_nanos = self.period_nanos + partial.period_nanos;
        self.bytes = self.bytes + partial.bytes;
        self.operations = self.operations + partial.operations;
    }

    /// Transmission speed in thousandths of Gbps, computed once from the
    /// window's raw totals.
    pub fn milli_gbps(&self) -> (r: u128)
        ensures
            r == milli_gbps_of(self.bytes as int, self.period_nanos as int),
    {
        if self.period_nanos == 0 {
            0
        } else {
            let bits: u128 = (self.bytes as u128) * 8_000_000_000_000;
            bits / ((self.period_nanos as u128) * 1_073_741_824)
        }
    }

    /// Operation rate in thousandths of Mops, computed once from the
    /// window's raw totals.
    pub fn milli_mops(&self) -> (r: u128)
        ensures
            r == milli_mops_of(self.operations as int, self.period_nanos as int),
    {
        if self.period_nanos == 0 {
            0
        } else {
            ((self.operations as u128) * 1_000_000) / (self.period_nanos as u128)
        }
    }
}

} // verus!
