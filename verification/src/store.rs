use vstd::prelude::*;
use crate::address::bytes_eq;

verus! {

/// One record of a store: a key and what is kept under it.
struct Entry<V> {
    key: Vec<u8>,
    value: V,
}

/// A keyed store of records. Keys are opaque byte strings, and no key is
/// held twice.
pub struct ByteMap<V> {
    entries: Vec<Entry<V>>,
}

/// Whether `key` stands at one of the positions of `entries`.
spec fn has_key<V>(entries: Seq<Entry<V>>, key: Seq<u8>) -> bool {
    exists|i: int| 0 <= i < entries.len() && #[trigger] entries[i].key@ == key
}

/// A position of `entries` at which `key` stands.
spec fn position_of<V>(entries: Seq<Entry<V>>, key: Seq<u8>) -> int {
    choose|i: int| 0 <= i < entries.len() && #[trigger] entries[i].key@ == key
}

/// No key stands at two positions.
spec fn distinct_keys<V>(entries: Seq<Entry<V>>) -> bool {
    forall|i: int, j: int|
        0 <= i < entries.len() && 0 <= j < entries.len() && i != j
            ==> #[trigger] entries[i].key@ != #[trigger] entries[j].key@
}

/// The store `records` with each record seen through its view.
pub open spec fn viewed<V: View>(records: Map<Seq<u8>, V>) -> Map<Seq<u8>, V::V> {
    Map::new(|key: Seq<u8>| records.contains_key(key), |key: Seq<u8>| records[key]@)
}

/// Keeping a record in a store shows in its view as keeping the record's view.
pub proof fn lemma_viewed_insert<V: View>(records: Map<Seq<u8>, V>, key: Seq<u8>, value: V)
    ensures
        viewed(records.insert(key, value)) == viewed(records).insert(key, value@),
{
    assert(viewed(records.insert(key, value)) =~= viewed(records).insert(key, value@));
}

/// Taking a record out of a store shows in its view as taking it out there.
pub proof fn lemma_viewed_remove<V: View>(records: Map<Seq<u8>, V>, key: Seq<u8>)
    ensures
        viewed(records.remove(key)) == viewed(records).remove(key),
{
    assert(viewed(records.remove(key)) =~= viewed(records).remove(key));
}

/// The view of an empty store is empty.
pub proof fn lemma_viewed_empty<V: View>()
    ensures
        viewed(Map::<Seq<u8>, V>::empty()) == Map::<Seq<u8>, V::V>::empty(),
{
    assert(viewed(Map::<Seq<u8>, V>::empty()) =~= Map::<Seq<u8>, V::V>::empty());
}

impl<V> ByteMap<V> {
    /// The store's validity: no key is held twice.
    pub closed spec fn wf(&self) -> bool {
        distinct_keys(self.entries@)
    }

    /// The store as a map from key to record.
    pub closed spec fn view(&self) -> Map<Seq<u8>, V> {
        Map::new(
            |key: Seq<u8>| has_key(self.entries@, key),
            |key: Seq<u8>| self.entries@[position_of(self.entries@, key)].value,
        )
    }

    /// The store with no record in it.
    pub fn new() -> (store: ByteMap<V>)
        ensures
            store.wf(),
            store@ == Map::<Seq<u8>, V>::empty(),
    {
        let store = ByteMap { entries: Vec::new() };
        assert(store@ =~= Map::<Seq<u8>, V>::empty());
        store
    }

    fn find(&self, key: &Vec<u8>) -> (found: Option<usize>)
        ensures
            match found {
                Some(i) => i < self.entries@.len() && self.entries@[i as int].key@ == key@,
                None => !has_key(self.entries@, key@),
            },
    {
        let mut i: usize = 0;
        while i < self.entries.len()
            invariant
                i <= self.entries@.len(),
                forall|j: int| 0 <= j < i ==> #[trigger] self.entries@[j].key@ != key@,
            decreases self.entries@.len() - i,
        {
            if bytes_eq(&self.entries[i].key, key) {
                return Some(i);
            }
            i += 1;
        }
        None
    }

    /// Whether a record is kept under `key`.
    pub fn contains_key(&self, key: &Vec<u8>) -> (present: bool)
        ensures
            present == self@.contains_key(key@),
    {
        self.find(key).is_some()
    }

    /// The record kept under `key`, if there is one.
    pub fn get(&self, key: &Vec<u8>) -> (found: Option<&V>)
        requires
            self.wf(),
        ensures
            match found {
                Some(value) => self@.contains_key(key@) && *value == self@[key@],
                None => !self@.contains_key(key@),
            },
    {
        match self.find(key) {
            Some(i) => {
                assert(has_key(self.entries@, key@));
                Some(&self.entries[i].value)
            },
            None => None,
        }
    }

    /// Keeps `value` under `key`, in place of what was kept there before.
    pub fn insert(&mut self, key: Vec<u8>, value: V)
        requires
            old(self).wf(),
        ensures
            final(self).wf(),
            final(self)@ == old(self)@.insert(key@, value),
    {
        let ghost before = self.entries@;
        let ghost k = key@;
        match self.find(&key) {
            Some(i) => {
                self.entries.set(i, Entry { key, value });
                proof {
                    let after = self.entries@;
                    assert(has_key(before, k));
                    assert forall|other: Seq<u8>| has_key(after, other) == has_key(
                        before,
                        other,
                    ) by {
                        if has_key(after, other) {
                            let j = position_of(after, other);
                            assert(before[j].key@ == other);
                        }
                        if has_key(before, other) {
                            let j = position_of(before, other);
                            assert(after[j].key@ == other);
                        }
                    }
                    assert forall|other: Seq<u8>| has_key(after, other) implies after[position_of(
                        after,
                        other,
                    )].value == (if other == k {
                        value
                    } else {
                        before[position_of(before, other)].value
                    }) by {
                        let j = position_of(after, other);
                        let j0 = position_of(before, other);
                        assert(before[j].key@ == other);
                    }
                    assert(self@ =~= old(self)@.insert(k, value));
                }
            },
            None => {
                self.entries.push(Entry { key, value });
                proof {
                    let after = self.entries@;
                    let last = before.len() as int;
                    assert(after[last].key@ == k);
                    assert forall|other: Seq<u8>| has_key(after, other) == (other == k || has_key(
                        before,
                        other,
                    )) by {
                        if has_key(after, other) {
                            let j = position_of(after, other);
                            if j < last {
                                assert(before[j].key@ == other);
                            }
                        }
                        if has_key(before, other) {
                            let j = position_of(before, other);
                            assert(after[j].key@ == other);
                        }
                    }
                    assert forall|other: Seq<u8>| has_key(after, other) implies after[position_of(
                        after,
                        other,
                    )].value == (if other == k {
                        value
                    } else {
                        before[position_of(before, other)].value
                    }) by {
                        let j = position_of(after, other);
                        if other != k {
                            let j0 = position_of(before, other);
                            assert(before[j].key@ == other);
                            assert(after[j0].key@ == other);
                        }
                    }
                    assert(self@ =~= old(self)@.insert(k, value));
                }
            },
        }
    }

    /// Takes out the record kept under `key`, and hands it back if there was one.
    pub fn remove(&mut self, key: &Vec<u8>) -> (taken: Option<V>)
        requires
            old(self).wf(),
        ensures
            final(self).wf(),
            final(self)@ == old(self)@.remove(key@),
            taken == (if old(self)@.contains_key(key@) {
                Some(old(self)@[key@])
            } else {
                None
            }),
    {
        let ghost before = self.entries@;
        let ghost k = key@;
        match self.find(key) {
            Some(i) => {
                let entry = self.entries.remove(i);
                proof {
                    let after = self.entries@;
                    assert(before[i as int].key@ == k);
                    assert(has_key(before, k));
                    assert forall|j: int| 0 <= j < after.len() implies #[trigger] after[j]
                        == before[if j < i { j } else { j + 1 }] by {}
                    assert forall|other: Seq<u8>| has_key(after, other) == (other != k && has_key(
                        before,
                        other,
                    )) by {
                        if has_key(after, other) {
                            let j = position_of(after, other);
                            let j0 = if j < i { j } else { j + 1 };
                            assert(before[j0].key@ == other);
                        }
                        if other != k && has_key(before, other) {
                            let j0 = position_of(before, other);
                            let j = if j0 < i { j0 } else { j0 - 1 };
                            assert(after[j].key@ == other);
                        }
                    }
                    assert forall|other: Seq<u8>| has_key(after, other) implies after[position_of(
                        after,
                        other,
                    )].value == before[position_of(before, other)].value by {
                        let j = position_of(after, other);
                        let j0 = if j < i { j } else { j + 1 };
                        assert(before[j0].key@ == other);
                    }
                    assert(self@ =~= old(self)@.remove(k));
                    assert(before[position_of(before, k)].key@ == k);
                }
                Some(entry.value)
            },
            None => {
                assert(self@ =~= old(self)@.remove(k));
                None
            },
        }
    }
}

} // verus!
