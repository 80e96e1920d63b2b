//! How the chain id is folded into the `v` of a signature, so that a
//! signature made for one chain is not valid on another.

use vstd::prelude::*;

verus! {

/// The `v` that carries the recovery byte `v` and the chain id.
pub open spec fn spec_add(v: u8, chain_id: u64) -> int {
    v as int + 35 + chain_id as int * 2
}

/// The chain id that a `v` carries, if it carries one.
pub open spec fn spec_chain_id(v: u64) -> Option<u64> {
    if v >= 35 {
        Some(((v - 35) / 2) as u64)
    } else {
        None
    }
}

/// Adds chain id into v
pub fn add(v: u8, chain_id: u64) -> (r: u64)
    requires
        spec_add(v, chain_id) <= u64::MAX,
    ensures
        r == spec_add(v, chain_id),
{
    v as u64 + 35 + chain_id * 2
}

/// Adds chain id into v, where the sum fits 64 bits.
pub fn checked_add(v: u8, chain_id: u64) -> (r: Option<u64>)
    ensures
        r == if spec_add(v, chain_id) <= u64::MAX {
            Some(spec_add(v, chain_id) as u64)
        } else {
            None
        },
{
    if chain_id <= (u64::MAX - 35 - v as u64) / 2 {
        Some(self::add(v, chain_id))
    } else {
        None
    }
}

/// Extracts chain_id from v
pub fn chain_id(v: u64) -> (r: Option<u64>)
    ensures
        r == spec_chain_id(v),
{
    if v >= 35 {
        Some((v - 35) / 2)
    } else {
        None
    }
}

/// A chain id that was added to a recovery byte of 0 or 1 is found again.
pub proof fn lemma_chain_id_of_add(v: u8, chain_id: u64)
    requires
        v <= 1,
        spec_add(v, chain_id) <= u64::MAX,
    ensures
        spec_chain_id(spec_add(v, chain_id) as u64) == Some(chain_id),
{
}

} // verus!
