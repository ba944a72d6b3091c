use vstd::prelude::*;

verus! {

/// A hash table from 32-bit ids to 64-bit values, held in a
/// `hashbrown::HashMap`.
#[verifier::external_body]
#[derive(Debug)]
pub struct IdMap {
    inner: hashbrown::HashMap<u32, u64>,
}

/// The entries that an `IdMap` holds.
pub uninterp spec fn id_map_entries(m: IdMap) -> Map<u32, u64>;

impl View for IdMap {
    type V = Map<u32, u64>;

    open spec fn view(&self) -> Map<u32, u64> {
        id_map_entries(*self)
    }
}

impl IdMap {
    /// Relies on `hashbrown::HashMap::new`: the new table is empty.
    #[verifier::external_body]
    pub fn new() -> (r: IdMap)
        ensures
            id_map_entries(r).dom().len() == 0 && id_map_entries(r).dom().finite(),
    {
        IdMap { inner: hashbrown::HashMap::new() }
    }

    /// Relies on `hashbrown::HashMap::insert`: the key maps to the value
    /// afterwards, every other entry stays.
    #[verifier::external_body]
    pub fn insert(&mut self, key: u32, value: u64)
        ensures
            id_map_entries(*final(self)) == id_map_entries(*old(self)).insert(key, value),
    {
        self.inner.insert(key, value);
    }

    /// Relies on `hashbrown::HashMap::get`: the value under the key, if any.
    #[verifier::external_body]
    pub fn get(&self, key: u32) -> (r: Option<u64>)
        ensures
            r == (if id_map_entries(*self).dom().contains(key) { Some(id_map_entries(*self)[key]) } else { None::<u64> }),
    {
        self.inner.get(&key).copied()
    }

    /// Relies on `hashbrown::HashMap::remove`: the entry of the key goes and
    /// its value is returned.
    #[verifier::external_body]
    pub fn remove(&mut self, key: u32) -> (r: Option<u64>)
        ensures
            id_map_entries(*final(self)) == id_map_entries(*old(self)).remove(key),
            r == (if old(self)@.dom().contains(key) { Some(old(self)@[key]) } else { None::<u64> }),
    {
        self.inner.remove(&key)
    }

    /// Relies on `hashbrown::HashMap::keys`: each key once, in the table's
    /// own order.
    #[verifier::external_body]
    pub fn keys(&self) -> (r: Vec<u32>)
        ensures
            r@.to_set() == self@.dom(),
            r@.no_duplicates(),
    {
        self.inner.keys().copied().collect()
    }

    /// Relies on `hashbrown::HashMap::iter`: each entry once, in the table's
    /// own order.
    #[verifier::external_body]
    pub fn entries(&self) -> (r: Vec<(u32, u64)>)
        ensures
            r@.len() == self@.dom().len(),
            forall|i: int| 0 <= i < r@.len() ==> #[trigger] self@.dom().contains(r@[i].0)
                && self@[r@[i].0] == r@[i].1,
            forall|i: int, j: int| 0 <= i < j < r@.len() ==> r@[i].0 != r@[j].0,
    {
        self.inner.iter().map(|(k, v)| (*k, *v)).collect()
    }
}

/// The number of entries of a table, from the keys it lists.
pub proof fn lemma_keys_len(m: Map<u32, u64>, keys: Seq<u32>)
    requires
        keys.to_set() == m.dom(),
        keys.no_duplicates(),
    ensures
        m.dom().finite(),
        m.dom().len() == keys.len(),
{
    keys.unique_seq_to_set();
}

} // verus!
