//! Chunked payload transfer: the accounting behind one `transmit` call.
//!
//! A transmitter sends a payload of `total` bytes by repeatedly sending at
//! most `chunk_size` bytes per operation until everything is sent. The
//! socket work happens outside the library; `Transfer` tracks the position
//! in the payload, tolerating partial writes, and `transmit_stats` builds
//! the statistics record the call reports.

use vstd::prelude::*;
use crate::stats::Stats;

verus! {

/// What a single transmit call must report for a payload of `total` bytes
/// sent in chunks of at most `chunk_size`: every byte, and one operation
/// per full chunk. The final partial chunk, if any, is deliberately not
/// counted as an extra operation — a documented, reproducible quirk of the
/// tool, kept as is.
pub open spec fn is_transmit_result(stats: Stats, total: int, chunk_size: int) -> bool {
    &&& !stats.summary
    &&& stats.bytes == total
    &&& stats.operations == total / chunk_size
}

/// Position of an in-progress transfer within a payload of `total` bytes:
/// everything before `offset` has been handed to the transport already.
#[derive(Clone, Copy, Debug, PartialEq, Eq, Structural)]
pub struct Transfer {
    pub total: usize,
    pub offset: usize,
}

impl Transfer {
    pub open spec fn wf(&self) -> bool {
        self.offset <= self.total
    }

    /// Starts a transfer of a payload of `total` bytes.
    pub fn new(total: usize) -> (r: Transfer)
        ensures
            r.total == total,
            r.offset == 0,
            r.wf(),
    {
        Transfer { total, offset: 0 }
    }

    /// Whether every byte of the payload has been sent.
    pub fn is_done(&self) -> (r: bool)
        ensures
            r == (self.offset == self.total),
    {
        self.offset == self.total
    }

    /// How many bytes are still to send.
    pub fn remaining(&self) -> (r: usize)
        requires
            self.wf(),
        ensures
            r == self.total - self.offset,
    {
        self.total - self.offset
    }

    /// Length of the next send: the remaining bytes, capped at
    /// `chunk_size`. The slice to hand to the transport is
    /// `payload[offset .. offset + len]`.
    pub fn next_chunk_len(&self, chunk_size: usize) -> (r: usize)
        requires
            self.wf(),
            self.offset < self.total,
            chunk_size > 0,
        ensures
            r == if self.total - self.offset < chunk_size {
                self.total - self.offset
            } else {
                chunk_size as int
            },
            1 <= r <= chunk_size,
            self.offset + r <= self.total,
    {
        let remain = self.total - self.offset;
        if remain < chunk_size {
            remain
        } else {
            chunk_size
        }
    }

    /// Records that the transport accepted `written` bytes. A stream
    /// socket may accept fewer bytes than offered; the next chunk then
    /// starts at the new offset, retrying the rest of the slice.
    pub fn advance(&mut self, written: usize)
        requires
            old(self).wf(),
            written <= old(self).total - old(self).offset,
        ensures
            final(self).total == old(self).total,
            final(self).offset == old(self).offset + written,
            final(self).wf(),
    {
        self.offset = self.offset + written;
    }
}

/// The statistics record one transmit call reports: all `total` bytes,
/// `total / chunk_size` operations (integer division), over the measured
/// period. Always a partial record — folding calls into a run summary is
/// the caller's job.
pub fn transmit_stats(total: usize, chunk_size: usize, period_nanos: u64) -> (r: Stats)
    requires
        chunk_size > 0,
    ensures
        is_transmit_result(r, total as int, chunk_size as int),
        r.period_nanos == period_nanos,
        r == (Stats {
            summary: false,
            period_nanos,
            bytes: total,
            operations: (total / chunk_size) as usize,
        }),
{
    Stats::partial(period_nanos, total, total / chunk_size)
}

/// Law: transmitting the same payload with the same chunk size twice
/// yields two reports with equal byte and operation counts, whatever the
/// transport did with the chunks and however long each call took.
pub proof fn lemma_transmit_is_repeatable(s1: Stats, s2: Stats, total: int, chunk_size: int)
    requires
        is_transmit_result(s1, total, chunk_size),
        is_transmit_result(s2, total, chunk_size),
    ensures
        s1.bytes == s2.bytes,
        s1.operations == s2.operations,
{
}

} // verus!
