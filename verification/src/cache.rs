//! The in-memory side of the map: a concurrent hash map from key strings to
//! value bytes, held behind a small set of trusted wrappers whose contracts
//! speak of the entries it holds.

use vstd::prelude::*;

verus! {

/// The in-memory cache: a concurrent map with per-shard locking, so that the
/// surrounding process may read it from many tasks at once.
#[verifier::external_body]
pub struct CacheMap {
    inner: dashmap::DashMap<String, Vec<u8>>,
}

/// The entries the cache holds, as a map from key characters to value bytes.
pub uninterp spec fn cache_entries(m: CacheMap) -> Map<Seq<char>, Seq<u8>>;

/// The entries of a cache holding nothing.
pub open spec fn no_entries() -> Map<Seq<char>, Seq<u8>> {
    Map::empty()
}

/// Relies on dashmap::DashMap::new: creates a map holding no entries.
#[verifier::external_body]
pub(crate) fn cache_new() -> (c: CacheMap)
    ensures
        cache_entries(c) == no_entries(),
{
    CacheMap { inner: dashmap::DashMap::new() }
}

/// Relies on dashmap::DashMap::get: returns the value stored under the key,
/// or nothing when the key is absent. The guard it hands out is cloned from
/// and dropped at once.
#[verifier::external_body]
pub(crate) fn cache_get(c: &CacheMap, key: &str) -> (r: Option<Vec<u8>>)
    ensures
        match r {
            Some(v) => cache_entries(*c).contains_key(key@) && v@ == cache_entries(*c)[key@],
            None => !cache_entries(*c).contains_key(key@),
        },
{
    c.inner.get(key).map(|entry| entry.value().clone())
}

/// Relies on dashmap::DashMap::insert: stores the value under the key,
/// replacing any value the key held before.
#[verifier::external_body]
pub(crate) fn cache_insert(c: &mut CacheMap, key: &str, value: Vec<u8>)
    ensures
        cache_entries(*final(c)) == cache_entries(*old(c)).insert(key@, value@),
{
    c.inner.insert(key.to_owned(), value);
}

/// Relies on dashmap::DashMap::remove: takes the entry under the key out of
/// the map; a key that is absent leaves the map as it was.
#[verifier::external_body]
pub(crate) fn cache_remove(c: &mut CacheMap, key: &str)
    ensures
        cache_entries(*final(c)) == cache_entries(*old(c)).remove(key@),
{
    c.inner.remove(key);
}

/// Relies on dashmap::DashMap::clear: empties the map.
#[verifier::external_body]
pub(crate) fn cache_clear(c: &mut CacheMap)
    ensures
        cache_entries(*final(c)) == no_entries(),
{
    c.inner.clear();
}

} // verus!
