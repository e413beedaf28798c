//! The durable side of the map: a table of rows keyed by a string, with the
//! four single-statement operations the rest of the crate issues against it.
//! An insert writes the row whether or not one exists, an update changes only
//! a row that exists yet reports success either way, a delete succeeds
//! whether or not a row matched, and a lookup is a point read.

use vstd::hash_map::StringHashMap;
use vstd::prelude::*;

verus! {

/// A failure of a durable-store operation, surfaced as a generic failure
/// carrying a descriptive message.
#[derive(Debug)]
pub struct MapError {
    pub message: String,
}

/// The durable table: rows of key and value, at most one row per key.
pub struct Store {
    rows: StringHashMap<Vec<u8>>,
}

impl View for Store {
    type V = Map<Seq<char>, Seq<u8>>;

    closed spec fn view(&self) -> Map<Seq<char>, Seq<u8>> {
        Map::new(
            |k: Seq<char>| self.rows@.contains_key(k),
            |k: Seq<char>| self.rows@[k]@,
        )
    }
}

impl Store {
    /// A table holding no rows.
    pub fn new() -> (s: Store)
        ensures
            s@ == Map::<Seq<char>, Seq<u8>>::empty(),
    {
        let s = Store { rows: StringHashMap::new() };
        proof {
            assert(s@ =~= Map::<Seq<char>, Seq<u8>>::empty());
        }
        s
    }
}

/// An owned copy of the given bytes.
pub(crate) fn clone_bytes(v: &Vec<u8>) -> (r: Vec<u8>)
    ensures
        r@ == v@,
{
    let r = v.clone();
    proof {
        assert forall|i: int| 0 <= i < v@.len() implies r@[i] == v@[i] by {
            assert(cloned::<u8>(v@[i], r@[i]));
        }
        assert(r@ =~= v@);
    }
    r
}

/// One row of the table: a key and the bytes stored under it.
#[derive(Debug)]
pub struct DbRow {
    pub key: String,
    pub value: Vec<u8>,
}

impl DbRow {
    /// A row holding the given key and value.
    pub fn new(key: &str, value: Vec<u8>) -> (r: Self)
        ensures
            r.key@ == key@,
            r.value@ == value@,
    {
        Self { key: key.to_owned(), value }
    }

    /// Writes this row into the table, inserting it or overwriting the row
    /// the key already has.
    pub fn insert(&self, store: &mut Store) -> (r: Result<(), MapError>)
        ensures
            r is Ok,
            final(store)@ == old(store)@.insert(self.key@, self.value@),
    {
        let ghost before = store@;
        store.rows.insert(self.key.clone(), clone_bytes(&self.value));
        proof {
            assert(store@ =~= before.insert(self.key@, self.value@));
        }
        Ok(())
    }

    /// Updates the row the key has in the table; a key with no row matches
    /// nothing, leaves the table as it was, and still counts as success.
    pub fn update(&self, store: &mut Store) -> (r: Result<(), MapError>)
        ensures
            r is Ok,
            final(store)@ == (if old(store)@.contains_key(self.key@) {
                old(store)@.insert(self.key@, self.value@)
            } else {
                old(store)@
            }),
    {
        let ghost before = store@;
        if store.rows.contains_key(self.key.as_str()) {
            store.rows.insert(self.key.clone(), clone_bytes(&self.value));
            proof {
                assert(store@ =~= before.insert(self.key@, self.value@));
            }
        }
        Ok(())
    }

    /// Deletes the row the key has in the table; whether or not a row
    /// matched, the operation counts as success.
    pub fn delete(&self, store: &mut Store) -> (r: Result<(), MapError>)
        ensures
            r is Ok,
            final(store)@ == old(store)@.remove(self.key@),
    {
        let ghost before = store@;
        store.rows.remove(self.key.as_str());
        proof {
            assert(store@ =~= before.remove(self.key@));
        }
        Ok(())
    }

    /// Looks the key up in the table, returning its row when one exists.
    pub fn get(key: &str, store: &Store) -> (r: Result<Option<Self>, MapError>)
        ensures
            store@.contains_key(key@) ==> (r matches Ok(Some(row)) && row.key@ == key@
                && row.value@ == store@[key@]),
            !store@.contains_key(key@) ==> (r matches Ok(None)),
    {
        match store.rows.get(key) {
            Some(v) => Ok(Some(DbRow::new(key, clone_bytes(v)))),
            None => Ok(None),
        }
    }
}

} // verus!
