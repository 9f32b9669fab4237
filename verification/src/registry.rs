//! The handle registry: a weak index from entity identity to the
//! engine-side rigid-body handle it owns, kept in an FNV-hashed map.
//!
//! The map itself comes from the `fnv` crate; the operations below are the
//! trusted boundary around it.

use vstd::prelude::*;

use fnv::FnvHashMap;

verus! {

/// The registry map from entity identity to rigid-body handle.
#[verifier::external_body]
pub struct HandleMap {
    inner: FnvHashMap<u64, u64>,
}

/// The entries the registry currently holds.
pub uninterp spec fn handle_entries(m: HandleMap) -> Map<u64, u64>;

/// Relies on fnv's `FnvHashMap::default` (std's `HashMap` with the FNV
/// hasher): a freshly built map has no entries.
#[verifier::external_body]
pub fn handle_map_new() -> (r: HandleMap)
    ensures
        handle_entries(r) =~= Map::empty(),
{
    HandleMap { inner: FnvHashMap::default() }
}

/// Relies on std's `HashMap::insert`: afterwards the key maps to the value
/// and every other entry is unchanged.
#[verifier::external_body]
pub fn handle_map_insert(m: &mut HandleMap, k: u64, v: u64)
    ensures
        handle_entries(*final(m)) == handle_entries(*old(m)).insert(k, v),
{
    m.inner.insert(k, v);
}

/// Relies on std's `HashMap::remove`: returns the value the key mapped to,
/// if any, and erases that entry.
#[verifier::external_body]
pub fn handle_map_remove(m: &mut HandleMap, k: u64) -> (r: Option<u64>)
    ensures
        handle_entries(*final(m)) == handle_entries(*old(m)).remove(k),
        r == if handle_entries(*old(m)).dom().contains(k) {
            Some(handle_entries(*old(m))[k])
        } else {
            None::<u64>
        },
{
    m.inner.remove(&k)
}

/// Relies on std's `HashMap::get`: returns the value the key maps to, if any.
#[verifier::external_body]
pub fn handle_map_get(m: &HandleMap, k: u64) -> (r: Option<u64>)
    ensures
        r == if handle_entries(*m).dom().contains(k) {
            Some(handle_entries(*m)[k])
        } else {
            None::<u64>
        },
{
    m.inner.get(&k).copied()
}

} // verus!
