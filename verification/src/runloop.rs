//! The transmitter's default run loop, as decisions.
//!
//! Given a repeat count, a transmitter repeatedly calls `transmit`,
//! reports each iteration, folds every report into a cumulative summary
//! and reports that summary once at the end. A repeat count of zero means
//! "run forever": the loop then ends only on an error or an outside
//! signal, never on its own. The transmit calls and the console output
//! happen outside the library; `RunState` carries the iteration counter
//! and the cumulative totals between them.

use vstd::prelude::*;
use crate::stats::Stats;

verus! {

/// Whether the loop runs iteration `iteration` (counted from 1) under
/// repeat count `repeat`: always when `repeat` is zero, otherwise for the
/// first `repeat` iterations exactly.
pub open spec fn run_continues(iteration: int, repeat: int) -> bool {
    repeat == 0 || iteration <= repeat
}

/// Loop position of one transmitter run: the 1-based index of the next
/// iteration, and the summary-tagged accumulator of every report so far.
#[derive(Clone, Copy, Debug, PartialEq, Eq, Structural)]
pub struct RunState {
    pub iteration: usize,
    pub cumulative: Stats,
}

impl RunState {
    /// A run about to perform its first iteration, with empty totals.
    pub fn new() -> (r: RunState)
        ensures
            r.iteration == 1,
            r.cumulative == (Stats { summary: true, period_nanos: 0, bytes: 0, operations: 0 }),
    {
        RunState { iteration: 1, cumulative: Stats::zero(true) }
    }

    /// Whether another transmit call is due.
    pub fn should_continue(&self, repeat: usize) -> (r: bool)
        ensures
            r == run_continues(self.iteration as int, repeat as int),
    {
        repeat == 0 || self.iteration <= repeat
    }

    /// Folds one iteration's report into the cumulative summary and moves
    /// on to the next iteration.
    pub fn record(&mut self, stats: &Stats)
        requires
            old(self).iteration < usize::MAX,
            old(self).cumulative.period_nanos + stats.period_nanos <= u64::MAX,
            old(self).cumulative.bytes + stats.bytes <= usize::MAX,
            old(self).cumulative.operations + stats.operations <= usize::MAX,
        ensures
            final(self).iteration == old(self).iteration + 1,
            final(self).cumulative.summary == old(self).cumulative.summary,
            final(self).cumulative.period_nanos == old(self).cumulative.period_nanos
                + stats.period_nanos,
            final(self).cumulative.bytes == old(self).cumulative.bytes + stats.bytes,
            final(self).cumulative.operations == old(self).cumulative.operations
                + stats.operations,
    {
        self.cumulative.update(stats);
        self.iteration = self.iteration + 1;
    }
}

/// Law: a repeat count of zero never lets the loop stop on its own — every
/// iteration is followed by another.
pub proof fn lemma_repeat_zero_never_stops(iteration: int)
    ensures
        run_continues(iteration, 0),
{
}

/// Law: a positive repeat count runs the loop for exactly the iterations
/// `1 ..= repeat`; in particular, `repeat == 1` performs exactly one
/// transmission.
pub proof fn lemma_positive_repeat_counts(iteration: int, repeat: int)
    requires
        repeat >= 1,
    ensures
        run_continues(iteration, repeat) == (iteration <= repeat),
{
}

} // verus!
