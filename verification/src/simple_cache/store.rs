//! The store of cached responses: a hash map under the FNV hash of the
//! `fnv` crate. Nothing in this file is proved: each function states what
//! the map's method is taken to do to the contents of the map.

use vstd::prelude::*;

verus! {

#[verifier::external_type_specification]
#[verifier::external_body]
pub struct ExFnvHasher(fnv::FnvHasher);

#[verifier::external_type_specification]
#[verifier::external_body]
#[verifier::reject_recursive_types(H)]
pub struct ExBuildHasherDefault<H>(std::hash::BuildHasherDefault<H>);

/// `fnv::FnvHashMap::default`: a map without entries.
#[verifier::external_body]
pub(crate) fn empty<V>() -> (r: fnv::FnvHashMap<u64, V>)
    ensures
        r@.dom() == Set::<u64>::empty(),
{
    fnv::FnvHashMap::default()
}

/// `HashMap::get` on a map under the FNV hash: the value under the key.
#[verifier::external_body]
pub(crate) fn get<V>(map: &fnv::FnvHashMap<u64, V>, key: u64) -> (r: Option<&V>)
    ensures
        match r {
            Some(value) => map@.contains_key(key) && *value == map@[key],
            None => !map@.contains_key(key),
        },
{
    map.get(&key)
}

/// `HashMap::insert` on a map under the FNV hash: the value stands under
/// the key, in the place of any value that stood there.
#[verifier::external_body]
pub(crate) fn insert<V>(map: &mut fnv::FnvHashMap<u64, V>, key: u64, value: V)
    ensures
        final(map)@ == old(map)@.insert(key, value),
{
    map.insert(key, value);
}

} // verus!
