//! The transaction workload: randomized balance-update records and
//! their generator, the item type of the benchmark's main phase.
use rand::Rng;
use vstd::prelude::*;

use crate::utils::bucket_id_spec;
use crate::utils::calculate_bucket_id;

verus! {

/// Relies on `rand::Rng::gen_range` over `0..bound` on the thread-local
/// generator: a uniformly sampled value of that range, which is
/// nonempty because `bound >= 1`.
#[verifier::external_body]
fn sample_below(bound: u64) -> (r: u64)
    requires
        bound >= 1,
    ensures
        r < bound,
{
    rand::thread_rng().gen_range(0..bound)
}

/// Relies on `uuid::Uuid::new_v4` and its display form: a fresh random
/// identifier rendered as 36 hyphenated hexadecimal characters.
#[verifier::external_body]
fn fresh_uuid() -> (s: String)
    ensures
        s@.len() == 36,
{
    uuid::Uuid::new_v4().to_string()
}

/// Relies on `std::time::SystemTime::now`: the clock reading as whole
/// seconds since the Unix epoch, or zero if the clock reads earlier
/// than the epoch.
#[verifier::external_body]
fn unix_time_secs() -> (t: u64) {
    match std::time::SystemTime::now().duration_since(std::time::UNIX_EPOCH) {
        Ok(d) => d.as_secs(),
        Err(_) => 0,
    }
}

/// Samples transactions uniformly at random within the configured
/// identifier ranges.
pub struct TransactionGenerator {
    pub max_aid: u64,
    pub max_tid: u64,
    pub max_bid: u64,
    pub max_delta: u64,
}

impl TransactionGenerator {
    /// Every sampling range is nonempty.
    pub open spec fn wf(&self) -> bool {
        &&& self.max_aid >= 1
        &&& self.max_tid >= 1
        &&& self.max_bid >= 1
        &&& self.max_delta >= 1
    }

    /// A generator over the seeded reference data: account, teller and
    /// branch identifiers range over the scaled row counts, and the
    /// transfer delta over its fixed bound.
    pub fn new(test_config: &crate::config::TestConfig) -> (g: Self)
        ensures
            g.max_aid == test_config.ttbench_accounts,
            g.max_tid == test_config.ttbench_tellers,
            g.max_bid == test_config.ttbench_branches,
            g.max_delta == 1000,
    {
        TransactionGenerator {
            max_aid: test_config.ttbench_accounts,
            max_tid: test_config.ttbench_tellers,
            max_bid: test_config.ttbench_branches,
            max_delta: 1000,
        }
    }

    /// Samples one transaction: identifiers inside the configured
    /// ranges, a fresh unique identifier, the capture time, and the
    /// routing bucket left unset — it is filled in at dispatch time,
    /// per target table.
    pub fn generate(&self) -> (t: Transaction)
        requires
            self.wf(),
        ensures
            t.aid < self.max_aid,
            t.tid < self.max_tid,
            t.bid < self.max_bid,
            t.delta < self.max_delta,
            t.bucket_id == 0,
            t.uuid@.len() == 36,
    {
        Transaction {
            uuid: fresh_uuid(),
            aid: sample_below(self.max_aid),
            tid: sample_below(self.max_tid),
            bid: sample_below(self.max_bid),
            delta: sample_below(self.max_delta),
            time: unix_time_secs(),
            bucket_id: 0,
        }
    }
}

/// One balance-update transaction: which account, teller and branch it
/// touches, the transferred delta, its unique identifier and capture
/// time, and the routing bucket filled in at dispatch time.
#[derive(Debug, Clone)]
pub struct Transaction {
    pub uuid: String,
    pub tid: u64,
    pub bid: u64,
    pub aid: u64,
    pub delta: u64,
    pub time: u64,
    pub bucket_id: u32,
}

impl Transaction {
    /// The record as inserted into the history space: every field kept,
    /// and the routing bucket derived from the transaction's own
    /// identifier.
    pub fn routed(self, bucket_count: u32) -> (t: Transaction)
        requires
            bucket_count >= 1,
        ensures
            t.bucket_id == bucket_id_spec(self.uuid@, bucket_count),
            1 <= t.bucket_id <= bucket_count,
            t.uuid == self.uuid,
            t.tid == self.tid,
            t.bid == self.bid,
            t.aid == self.aid,
            t.delta == self.delta,
            t.time == self.time,
    {
        let bucket_id = calculate_bucket_id(self.uuid.as_str(), bucket_count);
        Transaction {
            uuid: self.uuid,
            tid: self.tid,
            bid: self.bid,
            aid: self.aid,
            delta: self.delta,
            time: self.time,
            bucket_id,
        }
    }
}

} // verus!
