//! The cache-aside map: a concurrent in-memory map in front of the durable
//! table. Reads consult the cache first and populate it from the table on a
//! miss; writes and deletes go to the table first and touch the cache only
//! once the table operation has succeeded.
//!
//! The contracts here describe one operation at a time. A process that
//! drives the map from many tasks without serialising whole operations can
//! interleave two writers to one key between their table and cache writes,
//! leaving the cache behind the table until a cache-miss-forcing read; that
//! window is accepted, and `model` proves that an invalidated cache
//! converges back to the table.

use crate::cache::{
    cache_clear, cache_entries, cache_get, cache_insert, cache_new, cache_remove, no_entries,
    CacheMap,
};
use crate::model::MapModel;
use crate::store::{clone_bytes, DbRow, MapError, Store};
use vstd::prelude::*;

verus! {

/// A key-value map backed by the durable table, with a cache of recently
/// read and written entries in front of it.
pub struct HashMap {
    map: CacheMap,
    store: Store,
}

impl View for HashMap {
    type V = MapModel;

    closed spec fn view(&self) -> MapModel {
        MapModel { cache: cache_entries(self.map), store: self.store@ }
    }
}

impl HashMap {
    /// A map over the given table, with nothing cached yet.
    pub fn new(store: Store) -> (m: HashMap)
        ensures
            m@.cache == no_entries(),
            m@.store == store@,
    {
        HashMap { map: cache_new(), store }
    }

    /// Reads the value under `key`: the cached value on a hit; on a miss the
    /// table is consulted, and a row found there is put into the cache and
    /// returned; a key with no row anywhere yields nothing.
    pub fn get(&mut self, key: &str) -> (r: Option<Vec<u8>>)
        ensures
            final(self)@ == old(self)@.after_get(key@),
            r.deep_view() == old(self)@.get_result(key@),
    {
        match cache_get(&self.map, key) {
            Some(value) => Some(value),
            None => {
                match DbRow::get(key, &self.store) {
                    Ok(Some(row)) => {
                        cache_insert(&mut self.map, key, clone_bytes(&row.value));
                        Some(row.value)
                    },
                    Ok(None) => None,
                    Err(_) => None,
                }
            },
        }
    }

    /// Writes `value` under `key`: the row is inserted into or overwritten
    /// in the table, and only on success is the cache entry overwritten, so
    /// a failed durable write never leaves the cache ahead of the table.
    pub fn set(&mut self, key: &str, value: Vec<u8>) -> (r: Result<(), MapError>)
        ensures
            r is Ok,
            final(self)@ == old(self)@.after_set(key@, value@),
    {
        let row = DbRow::new(key, clone_bytes(&value));
        match row.insert(&mut self.store) {
            Ok(()) => {
                cache_insert(&mut self.map, key, value);
                Ok(())
            },
            Err(e) => Err(e),
        }
    }

    /// Updates the value under `key`: the table row is updated (a key with
    /// no row matches nothing there and still counts as success), and only
    /// on success is the cache entry overwritten.
    pub fn update(&mut self, key: &str, value: Vec<u8>) -> (r: Result<(), MapError>)
        ensures
            r is Ok,
            final(self)@ == old(self)@.after_update(key@, value@),
    {
        let row = DbRow::new(key, clone_bytes(&value));
        match row.update(&mut self.store) {
            Ok(()) => {
                cache_insert(&mut self.map, key, value);
                Ok(())
            },
            Err(e) => Err(e),
        }
    }

    /// Deletes the value under `key` from the table and, only on success,
    /// from the cache; a key with no row still counts as success.
    pub fn delete(&mut self, key: &str) -> (r: Result<(), MapError>)
        ensures
            r is Ok,
            final(self)@ == old(self)@.after_delete(key@),
    {
        let row = DbRow::new(key, Vec::new());
        match row.delete(&mut self.store) {
            Ok(()) => {
                cache_remove(&mut self.map, key);
                Ok(())
            },
            Err(e) => Err(e),
        }
    }

    /// Empties the cache, forcing the next read of every key to consult the
    /// table; the table itself is untouched.
    pub fn clear_cache(&mut self)
        ensures
            final(self)@ == old(self)@.after_invalidate(),
    {
        cache_clear(&mut self.map);
    }
}

} // verus!
