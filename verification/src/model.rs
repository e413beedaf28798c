//! The mathematical model of the store: a pair of maps, one for the
//! in-memory cache and one for the durable table, together with the
//! transitions that the executable operations follow and the laws that the
//! cache-aside discipline obeys.

use vstd::prelude::*;

verus! {

/// The abstract state of the whole map: what the cache holds and what the
/// durable table holds, both as maps from key characters to value bytes.
#[verifier::ext_equal]
pub ghost struct MapModel {
    pub cache: Map<Seq<char>, Seq<u8>>,
    pub store: Map<Seq<char>, Seq<u8>>,
}

impl MapModel {
    /// What a read of `k` returns: the cached value on a hit, otherwise the
    /// stored value, otherwise nothing.
    pub open spec fn get_result(self, k: Seq<char>) -> Option<Seq<u8>> {
        if self.cache.contains_key(k) {
            Some(self.cache[k])
        } else if self.store.contains_key(k) {
            Some(self.store[k])
        } else {
            None
        }
    }

    /// The state after a read of `k`: a miss that finds a row populates the
    /// cache with the stored value; anything else leaves the state alone.
    pub open spec fn after_get(self, k: Seq<char>) -> MapModel {
        if !self.cache.contains_key(k) && self.store.contains_key(k) {
            MapModel { cache: self.cache.insert(k, self.store[k]), store: self.store }
        } else {
            self
        }
    }

    /// The state after a set of `k` to `v`: the row is written (inserted or
    /// overwritten) in the table, and the cache entry is overwritten.
    pub open spec fn after_set(self, k: Seq<char>, v: Seq<u8>) -> MapModel {
        MapModel { cache: self.cache.insert(k, v), store: self.store.insert(k, v) }
    }

    /// The state after an update of `k` to `v`: the table row changes only
    /// where one exists (an update matching no row is a no-op there), yet the
    /// cache entry is overwritten regardless, the accepted gap of the
    /// existence-check-free update.
    pub open spec fn after_update(self, k: Seq<char>, v: Seq<u8>) -> MapModel {
        MapModel {
            cache: self.cache.insert(k, v),
            store: if self.store.contains_key(k) {
                self.store.insert(k, v)
            } else {
                self.store
            },
        }
    }

    /// The state after a delete of `k`: the row and the cache entry are both
    /// gone, whether or not they were present.
    pub open spec fn after_delete(self, k: Seq<char>) -> MapModel {
        MapModel { cache: self.cache.remove(k), store: self.store.remove(k) }
    }

    /// The state after the cache is invalidated wholesale: the table is
    /// untouched and the cache is empty.
    pub open spec fn after_invalidate(self) -> MapModel {
        MapModel { cache: Map::empty(), store: self.store }
    }

    /// Cache-store agreement: wherever a key is held by both the cache and
    /// the table, the two hold the same bytes.
    pub open spec fn consistent(self) -> bool {
        forall|k: Seq<char>|
            #[trigger] self.cache.contains_key(k) && self.store.contains_key(k)
                ==> self.cache[k] == self.store[k]
    }
}

/// A key never written is absent: reading it yields no value and changes
/// nothing.
pub proof fn lemma_get_absent(m: MapModel, k: Seq<char>)
    requires
        !m.cache.contains_key(k),
        !m.store.contains_key(k),
    ensures
        m.get_result(k) is None,
        m.after_get(k) == m,
{
}

/// Read-your-write: after a set of `k` to `v`, a read of `k` yields `v`,
/// both through the cache and after the cache is invalidated (so the value
/// is held durably by the table as well).
pub proof fn lemma_read_your_write(m: MapModel, k: Seq<char>, v: Seq<u8>)
    ensures
        m.after_set(k, v).get_result(k) == Some(v),
        m.after_set(k, v).after_invalidate().get_result(k) == Some(v),
{
}

/// A set followed by an update leaves the later value: after setting `k` to
/// `v1` and updating it to `v2`, a read of `k` yields `v2`, durably too.
pub proof fn lemma_update_after_set(m: MapModel, k: Seq<char>, v1: Seq<u8>, v2: Seq<u8>)
    ensures
        m.after_set(k, v1).after_update(k, v2).get_result(k) == Some(v2),
        m.after_set(k, v1).after_update(k, v2).after_invalidate().get_result(k) == Some(v2),
{
}

/// A delete erases: after a set of `k` and a delete of `k`, a read of `k`
/// yields nothing and the table no longer holds a row for `k`.
pub proof fn lemma_delete_removes(m: MapModel, k: Seq<char>, v: Seq<u8>)
    ensures
        m.after_set(k, v).after_delete(k).get_result(k) is None,
        !m.after_set(k, v).after_delete(k).store.contains_key(k),
{
}

/// Deleting is idempotent: a second delete of the same key changes nothing,
/// and in particular deleting an absent key leaves the state as it was.
pub proof fn lemma_delete_idempotent(m: MapModel, k: Seq<char>)
    ensures
        m.after_delete(k).after_delete(k) == m.after_delete(k),
        !m.cache.contains_key(k) && !m.store.contains_key(k) ==> m.after_delete(k) == m,
{
    assert(m.cache.remove(k).remove(k) =~= m.cache.remove(k));
    assert(m.store.remove(k).remove(k) =~= m.store.remove(k));
    if !m.cache.contains_key(k) && !m.store.contains_key(k) {
        assert(m.cache.remove(k) =~= m.cache);
        assert(m.store.remove(k) =~= m.store);
    }
}

/// The cache converges to the table: once the cache is invalidated, a read
/// returns exactly what the table holds, and the state it leaves agrees with
/// the table everywhere, so a stale cached value does not outlive a
/// cache-miss-forcing read.
pub proof fn lemma_cache_converges(m: MapModel, k: Seq<char>)
    ensures
        m.after_invalidate().get_result(k) == (if m.store.contains_key(k) {
            Some(m.store[k])
        } else {
            None::<Seq<u8>>
        }),
        m.after_invalidate().after_get(k).consistent(),
{
}

/// Every operation preserves cache-store agreement: started from a
/// consistent state, a read, a set, an update, a delete and an invalidation
/// each end in a consistent state.
pub proof fn lemma_consistency_preserved(m: MapModel, k: Seq<char>, v: Seq<u8>)
    requires
        m.consistent(),
    ensures
        m.after_get(k).consistent(),
        m.after_set(k, v).consistent(),
        m.after_update(k, v).consistent(),
        m.after_delete(k).consistent(),
        m.after_invalidate().consistent(),
{
}

} // verus!
