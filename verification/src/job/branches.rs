//! The branch rows of the seeded reference data.
use vstd::prelude::*;

verus! {

/// One row of the branches space: the branch, its balance, and the
/// bucket the row routes to.
#[derive(Debug, Clone, PartialEq, Eq, Structural)]
pub struct Branch {
    pub id: u64,
    pub abalance: u64,
    pub bucket_id: u32,
}

impl Branch {
    /// The row that the seeding operation replaces into the branches
    /// space: the given branch with a zero balance, routed to the
    /// given bucket.
    pub fn seeded(id: u64, bucket_id: u32) -> (b: Branch)
        ensures
            b.id == id,
            b.abalance == 0,
            b.bucket_id == bucket_id,
    {
        Branch { id, abalance: 0, bucket_id }
    }
}

} // verus!
