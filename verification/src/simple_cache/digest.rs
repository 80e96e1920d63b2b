//! The 64-bit digest of the `twox_hash` crate. Nothing in this file is
//! proved.

use vstd::prelude::*;

verus! {

/// The XXH64 digest of `bytes` with seed 0.
pub uninterp spec fn xxhash64_digest(bytes: Seq<u8>) -> u64;

/// `twox_hash::XxHash64` with seed 0, fed `bytes` in one piece: its digest.
#[verifier::external_body]
pub(crate) fn xxhash64(bytes: &[u8]) -> (r: u64)
    ensures
        r == xxhash64_digest(bytes@),
{
    let mut hasher = twox_hash::XxHash64::with_seed(0);
    std::hash::Hasher::write(&mut hasher, bytes);
    std::hash::Hasher::finish(&hasher)
}

} // verus!
