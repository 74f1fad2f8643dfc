//! A map keyed by `TypeId`, holding at most one value per type.

use std::any::TypeId;
use vstd::prelude::*;

verus! {

/// `std::any::TypeId`, carried through as an opaque key.
#[verifier::external_type_specification]
#[verifier::external_body]
pub struct ExTypeId(TypeId);

/// Compares two `TypeId`s with their `==` (std's `PartialEq` for `TypeId`).
/// Claimed: the result is true exactly when the two ids are the same value,
/// as std documents that two `TypeId`s are equal iff they name one type.
#[verifier::external_body]
pub fn same_type(a: &TypeId, b: &TypeId) -> (r: bool)
    ensures
        r == (*a == *b),
{
    *a == *b
}

/// The entries hold each key at most once.
pub open spec fn keys_unique<V>(entries: Seq<(TypeId, V)>) -> bool {
    forall|i: int, j: int|
        0 <= i < entries.len() && 0 <= j < entries.len() && i != j ==> #[trigger] entries[i].0
            != #[trigger] entries[j].0
}

/// Whether `k` is the key of some entry.
pub open spec fn has_key<V>(entries: Seq<(TypeId, V)>, k: TypeId) -> bool {
    exists|i: int| 0 <= i < entries.len() && #[trigger] entries[i].0 == k
}

/// The map that the entries stand for.
pub open spec fn entries_map<V>(entries: Seq<(TypeId, V)>) -> Map<TypeId, V> {
    Map::new(
        |k: TypeId| has_key(entries, k),
        |k: TypeId| entries[choose|i: int| 0 <= i < entries.len() && #[trigger] entries[i].0 == k].1,
    )
}

/// With unique keys, the entry at `i` is the map's value for its key.
pub proof fn lemma_entry_in_map<V>(entries: Seq<(TypeId, V)>, i: int)
    requires
        keys_unique(entries),
        0 <= i < entries.len(),
    ensures
        entries_map(entries).contains_key(entries[i].0),
        entries_map(entries)[entries[i].0] == entries[i].1,
{
    let k = entries[i].0;
    assert(has_key(entries, k));
    let j = choose|j: int| 0 <= j < entries.len() && #[trigger] entries[j].0 == k;
    assert(i == j);
}

/// A map from types to values; each type has at most one value.
pub struct TypeMap<V> {
    entries: Vec<(TypeId, V)>,
}

impl<V> TypeMap<V> {
    pub closed spec fn view(&self) -> Map<TypeId, V> {
        entries_map(self.entries@)
    }

    /// No type holds two entries.
    pub closed spec fn wf(&self) -> bool {
        keys_unique(self.entries@)
    }

    pub fn new() -> (m: Self)
        ensures
            m.wf(),
            m@ == Map::<TypeId, V>::empty(),
    {
        let m = TypeMap { entries: Vec::new() };
        assert(m@ =~= Map::<TypeId, V>::empty());
        m
    }

    /// The position of `k`'s entry, if it has one.
    fn position(&self, k: &TypeId) -> (r: Option<usize>)
        requires
            self.wf(),
        ensures
            r matches Some(i) ==> i < self.entries@.len() && self.entries@[i as int].0 == *k,
            r is None ==> !has_key(self.entries@, *k),
    {
        let mut i: usize = 0;
        while i < self.entries.len()
            invariant
                0 <= i <= self.entries@.len(),
                forall|j: int| 0 <= j < i ==> self.entries@[j].0 != *k,
            decreases self.entries@.len() - i,
        {
            if same_type(&self.entries[i].0, k) {
                return Some(i);
            }
            i += 1;
        }
        None
    }

    pub fn contains_key(&self, k: &TypeId) -> (r: bool)
        requires
            self.wf(),
        ensures
            r == self@.contains_key(*k),
    {
        self.position(k).is_some()
    }

    /// The value held for `k`, if any.
    pub fn get(&self, k: &TypeId) -> (r: Option<&V>)
        requires
            self.wf(),
        ensures
            r is Some <==> self@.contains_key(*k),
            r matches Some(v) ==> *v == self@[*k],
    {
        match self.position(k) {
            Some(i) => {
                proof {
                    lemma_entry_in_map(self.entries@, i as int);
                }
                Some(&self.entries[i].1)
            },
            None => None,
        }
    }

    /// Stores `v` for `k`, replacing and returning the value that was there.
    pub fn insert(&mut self, k: TypeId, v: V) -> (r: Option<V>)
        requires
            old(self).wf(),
        ensures
            final(self).wf(),
            final(self)@ == old(self)@.insert(k, v),
            r is Some <==> old(self)@.contains_key(k),
            r matches Some(o) ==> o == old(self)@[k],
    {
        let ghost before = self.entries@;
        match self.position(&k) {
            Some(i) => {
                proof {
                    lemma_entry_in_map(before, i as int);
                }
                let mut pair = (k, v);
                std::mem::swap(&mut pair, &mut self.entries[i]);
                let ghost after = self.entries@;
                assert(after =~= before.update(i as int, (k, v)));
                assert(keys_unique(after));
                assert(self@ =~= entries_map(before).insert(k, v)) by {
                    assert forall|key: TypeId| #[trigger]
                        self@.contains_key(key) == entries_map(before).insert(k, v).contains_key(
                            key,
                        ) by {
                        if key != k && has_key(before, key) {
                            let j = choose|j: int| 0 <= j < before.len() && #[trigger] before[j].0 == key;
                            assert(after[j].0 == key);
                        }
                        if key != k && has_key(after, key) {
                            let j = choose|j: int| 0 <= j < after.len() && #[trigger] after[j].0 == key;
                            assert(before[j].0 == key);
                        }
                        if key == k {
                            assert(after[i as int].0 == k);
                        }
                    }
                    assert forall|key: TypeId| #[trigger] self@.contains_key(key) implies self@[key]
                        == entries_map(before).insert(k, v)[key] by {
                        let j = choose|j: int| 0 <= j < after.len() && #[trigger] after[j].0 == key;
                        lemma_entry_in_map(after, j);
                        if key != k {
                            lemma_entry_in_map(before, j);
                        }
                    }
                }
                Some(pair.1)
            },
            None => {
                self.entries.push((k, v));
                let ghost after = self.entries@;
                assert(keys_unique(after));
                assert(self@ =~= entries_map(before).insert(k, v)) by {
                    assert forall|key: TypeId| #[trigger]
                        self@.contains_key(key) == entries_map(before).insert(k, v).contains_key(
                            key,
                        ) by {
                        if key != k && has_key(before, key) {
                            let j = choose|j: int| 0 <= j < before.len() && #[trigger] before[j].0 == key;
                            assert(after[j].0 == key);
                        }
                        if key != k && has_key(after, key) {
                            let j = choose|j: int| 0 <= j < after.len() && #[trigger] after[j].0 == key;
                            assert(j < before.len());
                            assert(before[j].0 == key);
                        }
                        if key == k {
                            assert(after[before.len() as int].0 == k);
                        }
                    }
                    assert forall|key: TypeId| #[trigger] self@.contains_key(key) implies self@[key]
                        == entries_map(before).insert(k, v)[key] by {
                        let j = choose|j: int| 0 <= j < after.len() && #[trigger] after[j].0 == key;
                        lemma_entry_in_map(after, j);
                        if key != k {
                            lemma_entry_in_map(before, j);
                        }
                    }
                }
                None
            },
        }
    }

    /// Takes the value held for `k` out of the map, if any.
    pub fn remove(&mut self, k: &TypeId) -> (r: Option<V>)
        requires
            old(self).wf(),
        ensures
            final(self).wf(),
            final(self)@ == old(self)@.remove(*k),
            r is Some <==> old(self)@.contains_key(*k),
            r matches Some(o) ==> o == old(self)@[*k],
    {
        let ghost before = self.entries@;
        match self.position(k) {
            Some(i) => {
                proof {
                    lemma_entry_in_map(before, i as int);
                }
                let pair = self.entries.remove(i);
                let ghost after = self.entries@;
                assert(after =~= before.remove(i as int));
                assert(forall|j: int| 0 <= j < after.len() ==> #[trigger] after[j] == before[if j < i { j } else { j + 1 }]);
                assert(keys_unique(after));
                assert(self@ =~= entries_map(before).remove(*k)) by {
                    assert forall|key: TypeId| #[trigger]
                        self@.contains_key(key) == entries_map(before).remove(*k).contains_key(key) by {
                        if key != *k && has_key(before, key) {
                            let j = choose|j: int| 0 <= j < before.len() && #[trigger] before[j].0 == key;
                            assert(j != i);
                            let jj = if j < i { j } else { j - 1 };
                            assert(after[jj].0 == key);
                        }
                        if has_key(after, key) {
                            let j = choose|j: int| 0 <= j < after.len() && #[trigger] after[j].0 == key;
                            let jj = if j < i { j } else { j + 1 };
                            assert(before[jj].0 == key);
                        }
                    }
                    assert forall|key: TypeId| #[trigger] self@.contains_key(key) implies self@[key]
                        == entries_map(before).remove(*k)[key] by {
                        let j = choose|j: int| 0 <= j < after.len() && #[trigger] after[j].0 == key;
                        lemma_entry_in_map(after, j);
                        let jj = if j < i { j } else { j + 1 };
                        lemma_entry_in_map(before, jj);
                    }
                }
                Some(pair.1)
            },
            None => {
                assert(self@ =~= entries_map(before).remove(*k));
                None
            },
        }
    }
    /// The value held for `k`; when there is none, first stores the one
    /// that `f` makes. `f` is called only in that case.
    pub fn get_or_insert_with<F: FnOnce() -> V>(&mut self, k: TypeId, f: F) -> (r: &V)
        requires
            old(self).wf(),
            !old(self)@.contains_key(k) ==> f.requires(()),
        ensures
            final(self).wf(),
            old(self)@.contains_key(k) ==> final(self)@ == old(self)@,
            !old(self)@.contains_key(k) ==> exists|v: V|
                f.ensures((), v) && final(self)@ == old(self)@.insert(k, v),
            final(self)@.contains_key(k),
            *r == final(self)@[k],
    {
        if !self.contains_key(&k) {
            let v = f();
            self.insert(k, v);
        }
        match self.position(&k) {
            Some(i) => {
                proof {
                    lemma_entry_in_map(self.entries@, i as int);
                }
                &self.entries[i].1
            },
            None => {
                proof {
                    assert(self@.contains_key(k));
                }
                &self.entries[0].1
            },
        }
    }
}


/// What is stored for a type is what a later lookup of that type gives;
/// storing for one type leaves every other type's value as it was.
pub proof fn lemma_get_after_insert<V>(m: Map<TypeId, V>, k: TypeId, v: V, other: TypeId)
    ensures
        m.insert(k, v).contains_key(k),
        m.insert(k, v)[k] == v,
        other != k ==> m.insert(k, v).contains_key(other) == m.contains_key(other),
        other != k && m.contains_key(other) ==> m.insert(k, v)[other] == m[other],
{
}

/// Taking out what was just stored gives the stored value back and leaves
/// the map as if the type had been taken out before the store.
pub proof fn lemma_remove_after_insert<V>(m: Map<TypeId, V>, k: TypeId, v: V)
    ensures
        m.insert(k, v).contains_key(k) && m.insert(k, v)[k] == v,
        m.insert(k, v).remove(k) == m.remove(k),
        !m.insert(k, v).remove(k).contains_key(k),
{
    assert(m.insert(k, v).remove(k) =~= m.remove(k));
}

} // verus!
