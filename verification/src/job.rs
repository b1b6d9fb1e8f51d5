//! The per-worker unit of concurrency: a job repeatedly claims the
//! next work item from its phase's shared status, has the dispatch
//! operation run against it, and applies the transition table that
//! decides whether to continue, tolerate a failure, or end.
use vstd::prelude::*;

use crate::status::Status;
use crate::status::Target;

pub mod branches;
pub mod connections;
pub mod create;
pub mod tpcb;

verus! {

/// The per-phase execution context handed to every dispatch operation:
/// the run configuration and the shared connection pool.
pub struct JobConfig<C> {
    pub config: crate::config::Config,
    pub connections: connections::Pool<C>,
}

/// The fault of creating a job against a phase whose target is already
/// exhausted: no job comes to exist.
#[derive(Debug, Clone, PartialEq, Eq, Structural)]
pub enum JobError {
    AlreadyComplete,
}

/// What a job does next, decided by one application of the transition
/// table.
pub enum JobStep<V, E> {
    /// A next item was claimed; dispatch a new operation against it.
    Dispatch(V),
    /// Nothing was claimable; keep waiting on the convergence flag.
    Wait,
    /// The phase converged and the job ends successfully.
    Exhausted,
    /// The failure of the final operation exceeded the retry ceiling;
    /// the job ends with it.
    Fatal(E),
}

/// The state a job keeps between operations: its identity and the
/// cumulative count of tolerated tail failures, checked against the
/// configured ceiling.
pub struct Job {
    pub id: u64,
    pub job_retries: u64,
    pub max_retries: u64,
}

impl Job {
    /// Creates one job against a phase and claims its first work item,
    /// which the caller dispatches. A phase whose target is already
    /// exhausted admits no job: creation fails with `AlreadyComplete`
    /// exactly then.
    pub fn new<T: Target>(id: u64, max_retries: u64, status: &mut Status<T>) -> (r: Result<
        (Job, T::Output),
        JobError,
    >)
        requires
            old(status).wf(),
        ensures
            final(status).wf(),
            old(status).target.remaining() == 0 ==> r == Err::<(Job, T::Output), JobError>(
                JobError::AlreadyComplete,
            ) && final(status).target.remaining() == 0
                && final(status).progress.iterations_count
                == old(status).progress.iterations_count,
            old(status).target.remaining() > 0 ==> r is Ok
                && final(status).target.remaining() == (old(status).target.remaining() - 1) as nat
                && final(status).progress.iterations_count
                == old(status).progress.iterations_count + 1
                && r->Ok_0.0 == (Job { id, job_retries: 0, max_retries })
                && old(status).target.claim_post(final(status).target, Some(r->Ok_0.1)),
    {
        match status.make_progress() {
            Some(value) => Ok((Job { id, job_retries: 0, max_retries }, value)),
            None => Err(JobError::AlreadyComplete),
        }
    }

    /// One application of the transition table, made when the in-flight
    /// operation for the current item has completed with `outcome`.
    ///
    /// While the target is not reached, any outcome — failures are
    /// best-effort and the caller has already logged them — leads to
    /// claiming the next item and dispatching it; under serialized
    /// claims an unreached target always has an item, so the job never
    /// waits. Once the target is reached, a success ends the job; a
    /// failure on this final item consults the cumulative retry count
    /// against the ceiling: beyond it the job ends with that failure,
    /// otherwise the count grows and the failure is tolerated, ending
    /// the job successfully anyway.
    pub fn step<T: Target, E>(&mut self, status: &mut Status<T>, outcome: Result<(), E>) -> (r:
        JobStep<T::Output, E>)
        requires
            old(status).wf(),
        ensures
            final(status).wf(),
            final(self).id == old(self).id,
            final(self).max_retries == old(self).max_retries,
            old(status).target.remaining() == 0 ==> final(status).target.remaining() == 0
                && final(status).progress.iterations_count
                == old(status).progress.iterations_count,
            old(status).target.remaining() == 0 && outcome is Ok ==> r is Exhausted
                && *final(self) == *old(self),
            old(status).target.remaining() == 0 && outcome is Err
                && old(self).job_retries > old(self).max_retries
                ==> r == JobStep::<T::Output, E>::Fatal(outcome->Err_0)
                && *final(self) == *old(self),
            old(status).target.remaining() == 0 && outcome is Err
                && old(self).job_retries <= old(self).max_retries ==> r is Exhausted
                && final(self).job_retries == (if old(self).job_retries < u64::MAX {
                old(self).job_retries + 1
            } else {
                old(self).job_retries as int
            }),
            old(status).target.remaining() > 0 ==> r is Dispatch && *final(self) == *old(self)
                && final(status).target.remaining() == (old(status).target.remaining() - 1) as nat
                && final(status).progress.iterations_count
                == old(status).progress.iterations_count + 1
                && old(status).target.claim_post(final(status).target, Some(r->Dispatch_0)),
    {
        if status.is_reached() {
            match outcome {
                Ok(_) => JobStep::Exhausted,
                Err(failure) => {
                    if self.job_retries > self.max_retries {
                        JobStep::Fatal(failure)
                    } else {
                        if self.job_retries < u64::MAX {
                            self.job_retries = self.job_retries + 1;
                        }
                        JobStep::Exhausted
                    }
                },
            }
        } else {
            match status.make_progress() {
                Some(value) => JobStep::Dispatch(value),
                None => JobStep::Wait,
            }
        }
    }
}

} // verus!
