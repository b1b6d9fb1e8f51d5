//! Iteration-bounded convergence targets: a counter of claims still
//! owed beside a generator of items, in two variants — plain
//! increasing identifiers for the one-shot and seeding phases, and
//! randomized transactions for the benchmark's main phase.
//!
//! The counter is the only state the claims race on; in the running
//! program it sits behind a guard, so each claim reads, decrements and
//! stores it as one unit. The model functions below iterate exactly
//! that serialized claim step, and the laws over them state what any
//! number of workers observe together: every item is claimed exactly
//! once, and exhaustion is permanent.
use vstd::prelude::*;

use super::Logger;
use super::Progress;
use super::Status;
use super::Target;
use crate::config::Config;
use crate::job::tpcb::Transaction;
use crate::job::tpcb::TransactionGenerator;

verus! {

/// A convergence target bounded by an iteration count: a generator of
/// work items beside the count of claims still owed.
pub struct Iterations<T> {
    pub generator: T,
    pub counter: u64,
}

impl<T> Iterations<T> {
    /// A target that owes `counter` claims, producing items from
    /// `generator`.
    pub fn new(generator: T, counter: u64) -> (r: Self)
        ensures
            r.generator == generator,
            r.counter == counter,
    {
        Iterations { generator, counter }
    }
}

/// One serialized claim against a counter-driven target: from the next
/// identifier and the remaining count to the successor state and the
/// claimed identifier, if any.
pub open spec fn claim_step(generator: u64, counter: u64) -> (u64, u64, Option<u64>) {
    if counter == 0 {
        (generator, counter, None::<u64>)
    } else {
        (((generator + 1) as u64), ((counter - 1) as u64), Some(generator))
    }
}

/// The state of a counter-driven target after `n` serialized claims,
/// in whatever order the workers made them.
pub open spec fn state_after(generator: u64, counter: u64, n: nat) -> (u64, u64)
    decreases n,
{
    if n == 0 {
        (generator, counter)
    } else {
        let prev = state_after(generator, counter, (n - 1) as nat);
        let step = claim_step(prev.0, prev.1);
        (step.0, step.1)
    }
}

/// The identifiers handed out by the successful claims among the first
/// `n`, in claim order.
pub open spec fn ids_after(generator: u64, counter: u64, n: nat) -> Seq<u64>
    decreases n,
{
    if n == 0 {
        Seq::empty()
    } else {
        let prev = state_after(generator, counter, (n - 1) as nat);
        let prev_ids = ids_after(generator, counter, (n - 1) as nat);
        match claim_step(prev.0, prev.1).2 {
            Some(id) => prev_ids.push(id),
            None => prev_ids,
        }
    }
}

/// How many of the first `n` claims succeed against a target that owes
/// `counter` items: all of them until the quota is met, none after.
pub open spec fn claims_made(counter: u64, n: nat) -> nat {
    if n <= counter {
        n
    } else {
        counter as nat
    }
}

/// The closed form of the claim iteration: after `n` claims the next
/// identifier has advanced by the number of successful claims, the
/// remaining count has dropped by the same number, and the handed-out
/// identifiers are consecutive from the starting identifier.
pub proof fn lemma_state_closed_form(generator: u64, counter: u64, n: nat)
    requires
        generator + counter <= u64::MAX,
    ensures
        state_after(generator, counter, n) == (
        ((generator + claims_made(counter, n)) as u64), ((counter - claims_made(counter, n)) as u64),
        ),
        ids_after(generator, counter, n) =~= Seq::new(
            claims_made(counter, n),
            |i: int| (generator + i) as u64,
        ),
    decreases n,
{
    if n > 0 {
        lemma_state_closed_form(generator, counter, (n - 1) as nat);
        let prev = state_after(generator, counter, (n - 1) as nat);
        let prev_ids = ids_after(generator, counter, (n - 1) as nat);
        if (n - 1) as nat <= counter as nat {
            assert(prev.1 == counter - claims_made(counter, (n - 1) as nat));
        }
        assert(ids_after(generator, counter, n) =~= Seq::new(
            claims_made(counter, n),
            |i: int| (generator + i) as u64,
        ));
    }
}

/// Exactly-once claiming: against a target that owes `counter` items,
/// any `n >= counter` claims — however many workers made them — hand
/// out exactly `counter` identifiers, all distinct: no item is lost
/// and none is claimed twice.
pub proof fn lemma_exactly_once_claiming(generator: u64, counter: u64, n: nat)
    requires
        generator + counter <= u64::MAX,
        n >= counter,
    ensures
        ids_after(generator, counter, n).len() == counter,
        ids_after(generator, counter, n).no_duplicates(),
        ids_after(generator, counter, n).to_set().len() == counter,
{
    lemma_state_closed_form(generator, counter, n);
    let ids = ids_after(generator, counter, n);
    assert forall|p: int, q: int|
        0 <= p < ids.len() && 0 <= q < ids.len() && p != q implies ids[p] != ids[q] by {
        assert(ids[p] == (generator + p) as u64);
        assert(ids[q] == (generator + q) as u64);
    }
    ids.unique_seq_to_set();
}

/// Exhaustion is permanent: the target reports reached exactly from
/// the `counter`-th claim on — never before, and never flipping back.
pub proof fn lemma_reached_permanent(generator: u64, counter: u64, n: nat, m: nat)
    requires
        generator + counter <= u64::MAX,
        n <= m,
    ensures
        (state_after(generator, counter, n).1 == 0) == (n >= counter),
        state_after(generator, counter, n).1 == 0 ==> state_after(generator, counter, m).1 == 0,
{
    lemma_state_closed_form(generator, counter, n);
    lemma_state_closed_form(generator, counter, m);
}

impl Target for Iterations<u64> {
    type Output = u64;

    /// The claims still owed.
    open spec fn remaining(&self) -> nat {
        self.counter as nat
    }

    /// Identifiers cannot wrap while claims remain.
    open spec fn wf(&self) -> bool {
        self.generator + self.counter <= u64::MAX
    }

    /// A claim is exactly one application of the model's `claim_step`.
    open spec fn claim_post(&self, next: Self, r: Option<u64>) -> bool {
        (next.generator, next.counter, r) == claim_step(self.generator, self.counter)
    }

    /// One serialized claim: exactly the model's `claim_step`.
    fn make_progress(&mut self) -> (r: Option<u64>) {
        if self.counter == 0 {
            return None;
        }
        self.counter = self.counter - 1;
        let id = self.generator;
        self.generator = self.generator + 1;
        Some(id)
    }

    fn is_reached(&self) -> (r: bool) {
        self.counter == 0
    }
}

impl Target for Iterations<TransactionGenerator> {
    type Output = Transaction;

    /// The claims still owed.
    open spec fn remaining(&self) -> nat {
        self.counter as nat
    }

    /// The sampling ranges of the generator are nonempty.
    open spec fn wf(&self) -> bool {
        self.generator.wf()
    }

    /// A claim keeps the generator's ranges, drops the counter as in
    /// the model, and any handed-out transaction was sampled inside
    /// the ranges, with its routing bucket still unset.
    open spec fn claim_post(&self, next: Self, r: Option<Transaction>) -> bool {
        &&& next.generator == self.generator
        &&& next.counter == (if self.counter == 0 {
            0
        } else {
            self.counter - 1
        })
        &&& (r is Some) == (self.counter > 0)
        &&& (r is Some ==> {
            &&& r->Some_0.aid < self.generator.max_aid
            &&& r->Some_0.tid < self.generator.max_tid
            &&& r->Some_0.bid < self.generator.max_bid
            &&& r->Some_0.delta < self.generator.max_delta
            &&& r->Some_0.bucket_id == 0
            &&& r->Some_0.uuid@.len() == 36
        })
    }

    /// One serialized claim: the counter drops as in the model, and a
    /// freshly sampled transaction is handed out while items remain.
    fn make_progress(&mut self) -> (r: Option<Transaction>) {
        if self.counter == 0 {
            return None;
        }
        self.counter = self.counter - 1;
        Some(self.generator.generate())
    }

    fn is_reached(&self) -> (r: bool) {
        self.counter == 0
    }
}

impl Status<Iterations<u64>> {
    /// The status of a one-shot administrative phase: a counter target
    /// that owes a single claim, with fresh progress counters.
    pub fn single_run() -> (s: Self)
        ensures
            s.wf(),
            s.target.generator == 0,
            s.target.counter == 1,
            s.progress.iterations_count == 0,
            s.progress.time_elapsed == 0,
    {
        Status { target: Iterations::new(0, 1), progress: Progress::default(), logger: Logger }
    }
}

impl Status<Iterations<TransactionGenerator>> {
    /// The status of the transaction phase in the iteration-bounded
    /// mode: the target owes the configured total of transactions,
    /// sampled within the scaled ranges. The time-bounded mode has no
    /// defined semantics yet, so it is excluded by precondition.
    pub fn from_config(config: &Config) -> (s: Self)
        requires
            config.mode is Iterations,
            config.test_config.ttbench_accounts >= 1,
            config.test_config.ttbench_tellers >= 1,
            config.test_config.ttbench_branches >= 1,
        ensures
            s.wf(),
            s.target.counter == config.transactions_total,
            s.target.generator.max_aid == config.test_config.ttbench_accounts,
            s.target.generator.max_tid == config.test_config.ttbench_tellers,
            s.target.generator.max_bid == config.test_config.ttbench_branches,
            s.target.generator.max_delta == 1000,
            s.progress.iterations_count == 0,
            s.progress.time_elapsed == 0,
    {
        Status {
            target: Iterations::new(
                TransactionGenerator::new(&config.test_config),
                config.transactions_total,
            ),
            progress: Progress::default(),
            logger: Logger,
        }
    }
}

} // verus!
