//! Phase orchestration: the convergence target that every job of a
//! phase claims from, and the progress counters kept beside it.
//!
//! One `Status` exists per phase. Jobs claim work items through it;
//! the orchestrator polls it until the target reports reached. In the
//! running program the status is shared behind a reference-counted
//! pointer and the claims serialize through the target's guard, so the
//! contracts here describe the state as each serialized claim sees it.
use std::io::Write;
use vstd::prelude::*;

pub mod iterations;

verus! {

/// A phase's convergence target: a bounded supply of work items that
/// the phase's jobs claim one by one.
///
/// Claiming is exactly-once: each successful claim lowers the count of
/// remaining items by one, and once no items remain every further
/// claim yields `None`, so the total number of items handed out equals
/// the quota the target was created with.
pub trait Target: Sized {
    /// The work items the target produces.
    type Output;

    /// The number of items still to be claimed.
    spec fn remaining(&self) -> nat;

    /// Internal consistency that every claim preserves.
    spec fn wf(&self) -> bool;

    /// What one claim does: how the state after the claim and the
    /// claimed item, if any, relate to the state before it. Each
    /// target defines this exactly, so callers that know the concrete
    /// target know exactly what a claim produced.
    spec fn claim_post(&self, next: Self, r: Option<Self::Output>) -> bool;

    /// Claims the next work item: `None` once the quota is exhausted,
    /// otherwise one of the remaining items.
    fn make_progress(&mut self) -> (r: Option<Self::Output>)
        requires
            old(self).wf(),
        ensures
            final(self).wf(),
            old(self).claim_post(*final(self), r),
            old(self).remaining() == 0 ==> r is None && final(self).remaining() == 0,
            old(self).remaining() > 0 ==> r is Some && final(self).remaining() == (
            old(self).remaining() - 1) as nat,
    ;

    /// Whether the quota is exhausted.
    fn is_reached(&self) -> (r: bool)
        requires
            self.wf(),
        ensures
            r == (self.remaining() == 0),
    ;
}

/// Reports per-item failures as they occur; they are printed, counted
/// against no one, and never propagated.
pub struct Logger;

impl Logger {
    /// Relies on `std::io::stdout`: prints the message on its own line
    /// of standard output.
    #[verifier::external_body]
    pub fn error(&self, text: &str) {
        let mut out = std::io::stdout();
        let _ = writeln!(out, "{}", text);
    }
}

/// Live counters of one phase, read for the progress display. The
/// latency aggregates of the final report belong to the excluded
/// reporting layer; only the counts the core itself advances live
/// here.
pub struct Progress {
    /// work items completed so far
    pub iterations_count: u64,
    /// milliseconds of waiting observed by the completion poll
    pub time_elapsed: u64,
}

impl Default for Progress {
    /// Counters of a phase that has not started.
    fn default() -> (r: Self)
        ensures
            r.iterations_count == 0,
            r.time_elapsed == 0,
    {
        Progress { iterations_count: 0, time_elapsed: 0 }
    }
}

impl Progress {
    /// Records one finished operation. Latency aggregation belongs to
    /// the excluded reporting layer, so the counters are untouched.
    pub fn update(&mut self, exec_time_ms: u64)
        ensures
            *final(self) == *old(self),
    {
        let _ = exec_time_ms;
    }
}

/// The shared state of one phase: its convergence target, owned here
/// and shared by every job of the phase, with the progress counters
/// and the failure logger beside it.
pub struct Status<T: Target> {
    pub target: T,
    pub progress: Progress,
    pub logger: Logger,
}

impl<T: Target> Status<T> {
    /// A status is consistent when its target is, and when the count
    /// of completed items cannot overflow while items remain.
    pub open spec fn wf(&self) -> bool {
        &&& self.target.wf()
        &&& self.progress.iterations_count + self.target.remaining() <= u64::MAX
    }

    /// Claims the next item from the target, counting the claim. The
    /// completed-item counter advances exactly on successful claims,
    /// so no increment is ever lost: after any series of claims it
    /// reads exactly the number of items handed out.
    pub fn make_progress(&mut self) -> (r: Option<T::Output>)
        requires
            old(self).wf(),
        ensures
            final(self).wf(),
            final(self).progress.time_elapsed == old(self).progress.time_elapsed,
            old(self).target.claim_post(final(self).target, r),
            old(self).target.remaining() == 0 ==> r is None && final(self).target.remaining() == 0
                && final(self).progress.iterations_count == old(self).progress.iterations_count,
            old(self).target.remaining() > 0 ==> r is Some && final(self).target.remaining() == (
            old(self).target.remaining() - 1) as nat && final(self).progress.iterations_count == old(
                self,
            ).progress.iterations_count + 1,
    {
        let progress = self.target.make_progress();
        if progress.is_some() {
            self.progress.iterations_count = self.progress.iterations_count + 1;
        }
        progress
    }

    /// Whether the phase has converged: no work items remain.
    pub fn is_reached(&self) -> (r: bool)
        requires
            self.wf(),
        ensures
            r == (self.target.remaining() == 0),
    {
        self.target.is_reached()
    }

    /// One tick of the completion wait: records the poll interval of
    /// 100 milliseconds as elapsed and reports whether the target is
    /// reached. The wait loop sleeps between ticks; the sleeping, a
    /// suspension point, stays with the caller.
    pub fn wait_tick(&mut self) -> (done: bool)
        requires
            old(self).wf(),
        ensures
            final(self).wf(),
            final(self).target == old(self).target,
            final(self).progress.iterations_count == old(self).progress.iterations_count,
            final(self).progress.time_elapsed == (if old(self).progress.time_elapsed + 100
                <= u64::MAX {
                old(self).progress.time_elapsed + 100
            } else {
                u64::MAX as int
            }),
            done == (final(self).target.remaining() == 0),
    {
        if self.progress.time_elapsed <= u64::MAX - 100 {
            self.progress.time_elapsed = self.progress.time_elapsed + 100;
        } else {
            self.progress.time_elapsed = u64::MAX;
        }
        self.target.is_reached()
    }
}

} // verus!
