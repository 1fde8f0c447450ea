//! Orchestration decisions: configuration checks, port assignment and
//! failure propagation.
//!
//! The orchestrator spawns one worker per destination (client role) or per
//! listening port (server role), waits for every worker, and surfaces the
//! first failure as the run's failure. The threads themselves run outside
//! the library; this module decides what to start and what the collected
//! results mean.

use vstd::prelude::*;
use crate::errors::Error;

verus! {

/// A client run needs at least one destination; rejecting an empty list is
/// a configuration error, found before any transport work starts.
pub fn check_destinations(count: usize) -> (r: Result<(), Error>)
    ensures
        r == if count == 0 {
            Result::<(), Error>::Err(Error::Configuration)
        } else {
            Result::<(), Error>::Ok(())
        },
{
    if count == 0 {
        Err(Error::Configuration)
    } else {
        Ok(())
    }
}

/// The ports a server with `threads` workers listens on: consecutive
/// ports starting at `base_port`, one per worker.
pub fn worker_ports(base_port: u16, threads: u8) -> (r: Vec<u16>)
    requires
        base_port + threads <= u16::MAX + 1,
    ensures
        r@.len() == threads,
        forall|i: int| 0 <= i < threads ==> r@[i] == base_port + i,
{
    let mut ports: Vec<u16> = Vec::new();
    let mut i: u8 = 0;
    while i < threads
        invariant
            i <= threads,
            base_port + threads <= u16::MAX + 1,
            ports@.len() == i,
            forall|j: int| 0 <= j < i ==> ports@[j] == base_port + j,
        decreases threads - i,
    {
        ports.push(base_port + i as u16);
        i = i + 1;
    }
    ports
}

/// The run's outcome given every worker's result, in spawn order: the
/// first failure, or success when every worker succeeded.
pub open spec fn first_failure_of(results: Seq<Result<(), Error>>) -> Result<(), Error>
    decreases results.len(),
{
    if results.len() == 0 {
        Ok(())
    } else if results[0] is Err {
        results[0]
    } else {
        first_failure_of(results.drop_first())
    }
}

/// Collects the joined workers' results into the run's outcome. Every
/// worker has been waited on by the time this runs, so a failure here
/// never rolls back or cuts short a sibling that already finished.
pub fn first_failure(results: &Vec<Result<(), Error>>) -> (r: Result<(), Error>)
    ensures
        r == first_failure_of(results@),
{
    let n = results.len();
    let mut i: usize = 0;
    proof {
        assert(results@.skip(0) =~= results@);
    }
    while i < n
        invariant
            n == results@.len(),
            i <= n,
            forall|j: int| 0 <= j < i ==> results@[j] is Ok,
            first_failure_of(results@) == first_failure_of(results@.skip(i as int)),
        decreases n - i,
    {
        let current = results[i];
        if current.is_err() {
            proof {
                assert(results@.skip(i as int)[0] == results@[i as int]);
                assert(first_failure_of(results@.skip(i as int)) == results@[i as int]);
            }
            return current;
        }
        proof {
            assert(results@.skip(i as int)[0] == results@[i as int]);
            assert(results@.skip(i as int).drop_first() =~= results@.skip(i as int + 1));
        }
        i = i + 1;
    }
    proof {
        assert(results@.skip(n as int).len() == 0);
    }
    Ok(())
}

/// Law: if every worker succeeded, the run succeeds.
pub proof fn lemma_all_ok_run_succeeds(results: Seq<Result<(), Error>>)
    requires
        forall|i: int| 0 <= i < results.len() ==> results[i] is Ok,
    ensures
        first_failure_of(results) is Ok,
    decreases results.len(),
{
    if results.len() > 0 {
        lemma_all_ok_run_succeeds(results.drop_first());
    }
}

/// Law: one failed worker fails the whole run — and the outcome is that
/// worker's own error when every worker before it succeeded. The workers
/// after it still ran to completion; their results merely go unreported.
pub proof fn lemma_failure_propagates(results: Seq<Result<(), Error>>, i: int)
    requires
        0 <= i < results.len(),
        results[i] is Err,
        forall|j: int| 0 <= j < i ==> results[j] is Ok,
    ensures
        first_failure_of(results) is Err,
        first_failure_of(results) == results[i],
    decreases i,
{
    if i > 0 {
        lemma_failure_propagates(results.drop_first(), i - 1);
        assert(results.drop_first()[i - 1] == results[i]);
    }
}

} // verus!
