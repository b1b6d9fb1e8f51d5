//! Shard-routing key derivation.
//!
//! A key string is mapped to a bucket identifier in `[1, bucket_count]`
//! by a 32-bit cyclic redundancy checksum (reflected polynomial
//! `0xEDB88320`, initial value `0xFFFFFFFF`, no final XOR) taken modulo
//! the bucket count. The checksum must match the cluster's own routing
//! hash bit for bit, so it is computed by the `crc` crate rather than
//! re-implemented here.
use vstd::prelude::*;

verus! {

/// The checksum that the cluster's router applies to a key: CRC-32 in
/// reflected form with polynomial `0xEDB88320`, initial value
/// `0xFFFFFFFF` and no final XOR, over the UTF-8 bytes of the key.
pub uninterp spec fn crc32_of(key: Seq<char>) -> u32;

/// Relies on `crc::Crc::<u32>::checksum` with the catalogued
/// `CRC_32_JAMCRC` parameters, which are exactly the router's variant:
/// width 32, reflected polynomial `0xEDB88320`, init `0xFFFFFFFF`,
/// reflected input and output, final XOR `0`.
#[verifier::external_body]
fn crc32_checksum(key: &str) -> (r: u32)
    ensures
        r == crc32_of(key@),
{
    crc::Crc::<u32>::new(&crc::CRC_32_JAMCRC).checksum(key.as_bytes())
}

/// The bucket that a key routes to: checksum modulo the bucket count,
/// shifted into `[1, bucket_count]`.
pub open spec fn bucket_id_spec(key: Seq<char>, bucket_count: u32) -> u32 {
    (crc32_of(key) % bucket_count + 1) as u32
}

/// Derives the routing bucket for a key. Deterministic: the result is a
/// function of the key and the bucket count alone, and always lies in
/// `[1, bucket_count]`.
pub fn calculate_bucket_id(val: &str, bucket_count: u32) -> (r: u32)
    requires
        bucket_count >= 1,
    ensures
        r == bucket_id_spec(val@, bucket_count),
        1 <= r <= bucket_count,
{
    crc32_checksum(val) % bucket_count + 1
}

/// Every key routes to a bucket inside `[1, bucket_count]`, and the
/// derivation is deterministic and idempotent: `bucket_id_spec` is a
/// function of the key and the bucket count alone, so equal inputs
/// always yield the equal bucket.
pub proof fn lemma_bucket_id_in_range(key: Seq<char>, bucket_count: u32)
    requires
        bucket_count >= 1,
    ensures
        1 <= bucket_id_spec(key, bucket_count) <= bucket_count,
{
}

} // verus!
