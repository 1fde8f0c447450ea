//! Per-connection read accounting for the stream-socket receiver.
//!
//! The receiver runs one reader per accepted connection. The reader loops
//! on the socket; after every read it feeds the returned size to
//! `ReaderState::on_read`, which decides what to report: nothing, a
//! partial record once the current window reaches `RECV_REPORT_INTERVAL`
//! bytes, or — on a zero-sized read, meaning the peer closed — one summary
//! record covering the entire connection lifetime. The socket loop and the
//! reporting channel live outside the library.

use vstd::prelude::*;
use crate::stats::{Stats, RECV_REPORT_INTERVAL};

verus! {

/// Byte and read counters of one connection: totals since the connection
/// started, and the portion already covered by earlier partial reports.
#[derive(Clone, Copy, Debug, PartialEq, Eq, Structural)]
pub struct ReaderState {
    pub total: usize,
    pub prev_total: usize,
    pub reads: usize,
    pub prev_reads: usize,
}

/// The mathematical shadow of `ReaderState`.
pub struct ReaderModel {
    pub total: int,
    pub prev_total: int,
    pub reads: int,
    pub prev_reads: int,
}

impl View for ReaderState {
    type V = ReaderModel;

    open spec fn view(&self) -> ReaderModel {
        ReaderModel {
            total: self.total as int,
            prev_total: self.prev_total as int,
            reads: self.reads as int,
            prev_reads: self.prev_reads as int,
        }
    }
}

/// What one read obliges the reader to do next.
#[derive(Clone, Copy, Debug, PartialEq, Eq, Structural)]
pub enum ReadOutcome {
    /// Keep reading; nothing to report yet.
    Progress,
    /// Send this partial record, covering the window just closed.
    Partial(Stats),
    /// The peer closed: send this summary record and stop the reader.
    Summary(Stats),
}

/// The counters before any read.
pub open spec fn reader_initial() -> ReaderModel {
    ReaderModel { total: 0, prev_total: 0, reads: 0, prev_reads: 0 }
}

/// Whether a read of `size` bytes closes a reporting window: data arrived
/// and the bytes since the last report now reach the reporting threshold.
pub open spec fn emits_partial(m: ReaderModel, size: int) -> bool {
    size != 0 && m.total + size - m.prev_total >= RECV_REPORT_INTERVAL
}

/// The counters after absorbing one read of `size` bytes: totals grow;
/// when a partial report goes out, the window markers catch up with the
/// totals.
pub open spec fn reader_step(m: ReaderModel, size: int) -> ReaderModel {
    let total = m.total + size;
    let reads = m.reads + 1;
    if emits_partial(m, size) {
        ReaderModel { total, prev_total: total, reads, prev_reads: reads }
    } else {
        ReaderModel { total, prev_total: m.prev_total, reads, prev_reads: m.prev_reads }
    }
}

impl ReaderState {
    pub open spec fn wf(&self) -> bool {
        self.prev_total <= self.total && self.prev_reads <= self.reads
    }

    /// Counters for a freshly accepted connection.
    pub fn new() -> (r: ReaderState)
        ensures
            r@ == reader_initial(),
            r.wf(),
    {
        ReaderState { total: 0, prev_total: 0, reads: 0, prev_reads: 0 }
    }

    /// Absorbs one read of `size` bytes and says what to report.
    ///
    /// `window_nanos` is the time since the last partial report (used by a
    /// partial record), `connection_nanos` the time since the connection
    /// started (used by the summary). A zero-sized read means the peer
    /// closed: the summary covers the whole connection — all bytes and all
    /// reads since it started, the closing read included in the count.
    pub fn on_read(&mut self, size: usize, window_nanos: u64, connection_nanos: u64) -> (r:
        ReadOutcome)
        requires
            old(self).wf(),
            old(self).total + size <= usize::MAX,
            old(self).reads < usize::MAX,
        ensures
            final(self)@ == reader_step(old(self)@, size as int),
            final(self).wf(),
            size == 0 ==> r == ReadOutcome::Summary(
                Stats {
                    summary: true,
                    period_nanos: connection_nanos,
                    bytes: old(self).total,
                    operations: (old(self).reads + 1) as usize,
                },
            ),
            size != 0 && emits_partial(old(self)@, size as int) ==> r == ReadOutcome::Partial(
                Stats {
                    summary: false,
                    period_nanos: window_nanos,
                    bytes: (old(self).total + size - old(self).prev_total) as usize,
                    operations: (old(self).reads + 1 - old(self).prev_reads) as usize,
                },
            ),
            size != 0 && !emits_partial(old(self)@, size as int) ==> r == ReadOutcome::Progress,
    {
        self.total = self.total + size;
        self.reads = self.reads + 1;
        if size == 0 {
            ReadOutcome::Summary(Stats::summary(connection_nanos, self.total, self.reads))
        } else {
            let window = self.total - self.prev_total;
            if window >= RECV_REPORT_INTERVAL {
                let report = Stats::partial(window_nanos, window, self.reads - self.prev_reads);
                self.prev_total = self.total;
                self.prev_reads = self.reads;
                ReadOutcome::Partial(report)
            } else {
                ReadOutcome::Progress
            }
        }
    }
}

/// The counters after a whole sequence of reads, oldest first.
pub open spec fn reader_run(sizes: Seq<int>) -> ReaderModel
    decreases sizes.len(),
{
    if sizes.len() == 0 {
        reader_initial()
    } else {
        reader_step(reader_run(sizes.drop_last()), sizes.last())
    }
}

pub open spec fn seq_sum(sizes: Seq<int>) -> int
    decreases sizes.len(),
{
    if sizes.len() == 0 {
        0
    } else {
        seq_sum(sizes.drop_last()) + sizes.last()
    }
}

/// Total bytes covered by the partial reports emitted while absorbing
/// `sizes`, oldest first.
pub open spec fn partial_bytes(sizes: Seq<int>) -> int
    decreases sizes.len(),
{
    if sizes.len() == 0 {
        0
    } else {
        let m = reader_run(sizes.drop_last());
        let size = sizes.last();
        partial_bytes(sizes.drop_last()) + if emits_partial(m, size) {
            m.total + size - m.prev_total
        } else {
            0
        }
    }
}

/// Invariants of the reader over any sequence of non-negative reads: the
/// byte total is the sum of the reads, the read count is their number,
/// the window markers never run ahead of the totals, and the partial
/// reports emitted so far cover exactly the bytes up to the last window
/// marker.
pub proof fn lemma_reader_run_invariant(sizes: Seq<int>)
    requires
        forall|i: int| 0 <= i < sizes.len() ==> sizes[i] >= 0,
    ensures
        reader_run(sizes).total == seq_sum(sizes),
        reader_run(sizes).reads == sizes.len(),
        0 <= reader_run(sizes).prev_total <= reader_run(sizes).total,
        0 <= reader_run(sizes).prev_reads <= reader_run(sizes).reads,
        partial_bytes(sizes) == reader_run(sizes).prev_total,
    decreases sizes.len(),
{
    if sizes.len() > 0 {
        lemma_reader_run_invariant(sizes.drop_last());
    }
}

/// Law: feed a connection exactly `K` bytes of data, in reads of any
/// sizes, then close it. The zero-sized read that signals the close makes
/// the reader emit one summary whose byte count is exactly `K` — the whole
/// connection, not just the window after the last partial report. The
/// partial reports emitted on the way sum to at most `K`, and to strictly
/// less than `K` unless the very last data read closed a reporting window
/// (as a single read of exactly `RECV_REPORT_INTERVAL` bytes does).
pub proof fn lemma_close_reports_whole_connection(sizes: Seq<int>, k: int)
    requires
        forall|i: int| 0 <= i < sizes.len() ==> sizes[i] > 0,
        seq_sum(sizes) == k,
    ensures
        !emits_partial(reader_run(sizes), 0),
        reader_run(sizes).total == k,
        reader_run(sizes).reads == sizes.len(),
        partial_bytes(sizes) <= k,
        sizes.len() > 0 && !emits_partial(reader_run(sizes.drop_last()), sizes.last())
            ==> partial_bytes(sizes) < k,
{
    lemma_reader_run_invariant(sizes);
    if sizes.len() > 0 && !emits_partial(reader_run(sizes.drop_last()), sizes.last()) {
        lemma_reader_run_invariant(sizes.drop_last());
    }
}

} // verus!
