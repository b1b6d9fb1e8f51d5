//! Orchestration core of a load-generation benchmark for a sharded
//! transactional store: shard-routing key derivation, a round-robin
//! connection pool, bounded work targets claimed concurrently by jobs,
//! a per-job retry state machine, and per-phase progress tracking.
use vstd::prelude::*;

pub mod config;
pub mod job;
pub mod status;
pub mod utils;

pub use utils::bucket_id_spec;
pub use utils::calculate_bucket_id;
pub use utils::crc32_of;
pub use utils::lemma_bucket_id_in_range;

verus! {

} // verus!
