//! A small association table: the storage behind each kind of account.

use vstd::prelude::*;

verus! {

/// A key of a [`Table`]: a value that can be compared at run time, with a
/// comparison that agrees with equality in specifications.
pub trait Key: Copy {
    /// Is `other` the same key?
    fn same(&self, other: &Self) -> (same: bool)
        ensures
            same == (*self == *other),
    ;
}

/// Does `entries` hold `key`?
pub open spec fn has_key<K, V>(entries: Seq<(K, V)>, key: K) -> bool {
    exists|i: int| 0 <= i < entries.len() && (#[trigger] entries[i]).0 == key
}

/// A place at which `entries` holds `key`.
pub open spec fn place_of<K, V>(entries: Seq<(K, V)>, key: K) -> int {
    choose|i: int| 0 <= i < entries.len() && (#[trigger] entries[i]).0 == key
}

/// No key occurs twice in `entries`.
pub open spec fn distinct_keys<K, V>(entries: Seq<(K, V)>) -> bool {
    forall|i: int, j: int|
        0 <= i < j < entries.len() ==> (#[trigger] entries[i]).0 != (#[trigger] entries[j]).0
}

/// The map that `entries` stands for.
pub open spec fn as_map<K, V>(entries: Seq<(K, V)>) -> Map<K, V> {
    Map::new(|key: K| has_key(entries, key), |key: K| entries[place_of(entries, key)].1)
}

/// In a sequence without repeated keys, each entry is what the map holds
/// under its key.
pub proof fn lemma_entry_in_map<K, V>(entries: Seq<(K, V)>, i: int)
    requires
        distinct_keys(entries),
        0 <= i < entries.len(),
    ensures
        as_map(entries).contains_key(entries[i].0),
        as_map(entries)[entries[i].0] == entries[i].1,
{
    let key = entries[i].0;
    assert(has_key(entries, key));
    let j = place_of(entries, key);
    assert(0 <= j < entries.len() && entries[j].0 == key);
    assert(i == j);
}

/// A finite map from keys to values, kept as a list of pairs in which no key
/// occurs twice.
pub struct Table<K: Key, V: Copy> {
    entries: Vec<(K, V)>,
}

impl<K: Key, V: Copy> Table<K, V> {
    /// No key occurs twice.
    #[verifier::type_invariant]
    closed spec fn wf(&self) -> bool {
        distinct_keys(self.entries@)
    }

    /// The map that the table stands for.
    pub closed spec fn view(&self) -> Map<K, V> {
        as_map(self.entries@)
    }

    /// The empty table.
    pub fn new() -> (table: Self)
        ensures
            table@ == Map::<K, V>::empty(),
    {
        let table = Table { entries: Vec::new() };
        assert(table@ =~= Map::<K, V>::empty());
        table
    }

    fn position(&self, key: &K) -> (place: Option<usize>)
        ensures
            match place {
                Some(i) => i < self.entries@.len() && self.entries@[i as int].0 == *key,
                None => !has_key(self.entries@, *key),
            },
    {
        let mut i: usize = 0;
        while i < self.entries.len()
            invariant
                i <= self.entries@.len(),
                forall|j: int| 0 <= j < i ==> (#[trigger] self.entries@[j]).0 != *key,
            decreases self.entries@.len() - i,
        {
            if self.entries[i].0.same(key) {
                return Some(i);
            }
            i += 1;
        }
        None
    }

    /// The value under `key`, if there is one.
    pub fn get(&self, key: &K) -> (value: Option<V>)
        ensures
            value == self@.get(*key),
    {
        proof {
            use_type_invariant(self);
        }
        match self.position(key) {
            Some(i) => {
                proof {
                    lemma_entry_in_map(self.entries@, i as int);
                }
                Some(self.entries[i].1)
            },
            None => None,
        }
    }

    /// Is there a value under `key`?
    pub fn contains_key(&self, key: &K) -> (found: bool)
        ensures
            found == self@.contains_key(*key),
    {
        self.position(key).is_some()
    }

    /// Puts `value` under `key`, in place of what was there.
    pub fn insert(&mut self, key: K, value: V)
        ensures
            final(self)@ == old(self)@.insert(key, value),
    {
        proof {
            use_type_invariant(&*self);
        }
        let ghost before = self.entries@;
        match self.position(&key) {
            Some(i) => {
                let mut entries: Vec<(K, V)> = Vec::new();
                std::mem::swap(&mut entries, &mut self.entries);
                entries.remove(i);
                entries.insert(i, (key, value));
                proof {
                    let after = entries@;
                    assert(after =~= before.update(i as int, (key, value)));
                    assert forall|k: K| has_key(after, k) <==> has_key(before, k) by {
                        if has_key(before, k) {
                            let j = place_of(before, k);
                            assert(after[j].0 == k);
                        }
                        if has_key(after, k) {
                            let j = place_of(after, k);
                            assert(before[j].0 == k);
                        }
                    }
                    assert(distinct_keys(after)) by {
                        assert forall|a: int, b: int| 0 <= a < b < after.len() implies
                            (#[trigger] after[a]).0 != (#[trigger] after[b]).0 by {
                            assert(before[a].0 == after[a].0);
                            assert(before[b].0 == after[b].0);
                        }
                    }
                    assert forall|k: K| has_key(after, k) implies
                        as_map(after)[k] == as_map(before).insert(key, value)[k] by {
                        let j = place_of(after, k);
                        lemma_entry_in_map(after, j);
                        if k != key {
                            assert(before[j].0 == k);
                            lemma_entry_in_map(before, j);
                        } else {
                            lemma_entry_in_map(after, i as int);
                        }
                    }
                    lemma_entry_in_map(before, i as int);
                    assert(as_map(after) =~= as_map(before).insert(key, value));
                }
                self.entries = entries;
            },
            None => {
                let mut entries: Vec<(K, V)> = Vec::new();
                std::mem::swap(&mut entries, &mut self.entries);
                entries.push((key, value));
                proof {
                    let after = entries@;
                    let last = before.len() as int;
                    assert(after[last].0 == key);
                    assert forall|k: K| has_key(after, k) <==> (k == key || has_key(before, k)) by {
                        if has_key(before, k) {
                            let j = place_of(before, k);
                            assert(after[j].0 == k);
                        }
                        if has_key(after, k) {
                            let j = place_of(after, k);
                            if j < last {
                                assert(before[j].0 == k);
                            }
                        }
                    }
                    assert(distinct_keys(after)) by {
                        assert forall|a: int, b: int| 0 <= a < b < after.len() implies
                            (#[trigger] after[a]).0 != (#[trigger] after[b]).0 by {
                            assert(before[a].0 == after[a].0);
                            if b < last {
                                assert(before[b].0 == after[b].0);
                            }
                        }
                    }
                    assert forall|k: K| has_key(after, k) implies
                        as_map(after)[k] == as_map(before).insert(key, value)[k] by {
                        let j = place_of(after, k);
                        lemma_entry_in_map(after, j);
                        if k != key {
                            assert(before[j].0 == k);
                            lemma_entry_in_map(before, j);
                        } else {
                            lemma_entry_in_map(after, last);
                        }
                    }
                    assert(as_map(after) =~= as_map(before).insert(key, value));
                }
                self.entries = entries;
            },
        }
    }

    /// Takes away what is under `key`, if anything.
    pub fn remove(&mut self, key: &K)
        ensures
            final(self)@ == old(self)@.remove(*key),
    {
        proof {
            use_type_invariant(&*self);
        }
        let ghost before = self.entries@;
        match self.position(key) {
            Some(i) => {
                let mut entries: Vec<(K, V)> = Vec::new();
                std::mem::swap(&mut entries, &mut self.entries);
                entries.remove(i);
                proof {
                    let after = entries@;
                    assert forall|j: int| 0 <= j < after.len() implies #[trigger] after[j]
                        == before[if j < i { j } else { j + 1 }] by {}
                    assert(distinct_keys(after)) by {
                        assert forall|a: int, b: int| 0 <= a < b < after.len() implies
                            (#[trigger] after[a]).0 != (#[trigger] after[b]).0 by {
                            let a0 = if a < i { a } else { a + 1 };
                            let b0 = if b < i { b } else { b + 1 };
                            assert(after[a] == before[a0]);
                            assert(after[b] == before[b0]);
                        }
                    }
                    assert forall|k: K|
                        has_key(after, k) <==> (k != *key && has_key(before, k)) by {
                        if has_key(after, k) {
                            let j = place_of(after, k);
                            let j0 = if j < i { j } else { j + 1 };
                            assert(before[j0].0 == k);
                            assert(before[i as int].0 == *key);
                        }
                        if k != *key && has_key(before, k) {
                            let j0 = place_of(before, k);
                            let j = if j0 < i { j0 } else { j0 - 1 };
                            assert(after[j].0 == k);
                        }
                    }
                    assert forall|k: K| has_key(after, k) implies
                        as_map(after)[k] == as_map(before)[k] by {
                        let j = place_of(after, k);
                        let j0 = if j < i { j } else { j + 1 };
                        lemma_entry_in_map(after, j);
                        assert(before[j0].0 == k);
                        lemma_entry_in_map(before, j0);
                    }
                    assert(as_map(after) =~= as_map(before).remove(*key));
                }
                self.entries = entries;
            },
            None => {
                assert(self@ =~= old(self)@.remove(*key));
            },
        }
    }

    /// A copy of the table.
    pub fn snapshot(&self) -> (copy: Self)
        ensures
            copy@ == self@,
    {
        proof {
            use_type_invariant(self);
        }
        let mut entries: Vec<(K, V)> = Vec::new();
        let mut i: usize = 0;
        while i < self.entries.len()
            invariant
                i <= self.entries@.len(),
                entries@ == self.entries@.subrange(0, i as int),
            decreases self.entries@.len() - i,
        {
            let entry = self.entries[i];
            entries.push(entry);
            proof {
                assert(entries@ =~= self.entries@.subrange(0, i + 1));
            }
            i += 1;
        }
        proof {
            assert(entries@ =~= self.entries@);
        }
        Table { entries }
    }
}

} // verus!
