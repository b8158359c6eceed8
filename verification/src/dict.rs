//! A small map for keys that are compared by what they stand for.
//!
//! The host keeps a handful of short tables (directories by database,
//! modules by path, workers by name). Each is a `Dict`: a vector of entries
//! in which no key occurs twice, seen in contracts as a `Map` from the
//! key's view to the value.

use vstd::prelude::*;

verus! {

/// A key: a value with a view and an executable test for equal views.
pub trait Key: View + Sized {
    /// Whether both keys stand for the same thing.
    fn same(&self, other: &Self) -> (r: bool)
        ensures
            r == (self@ == other@),
    ;
}

impl Key for String {
    fn same(&self, other: &Self) -> (r: bool) {
        *self == *other
    }
}

impl Key for Vec<u8> {
    fn same(&self, other: &Self) -> (r: bool) {
        if self.len() != other.len() {
            return false;
        }
        let mut i: usize = 0;
        while i < self.len()
            invariant
                self.len() == other.len(),
                0 <= i <= self.len(),
                forall|j: int| 0 <= j < i ==> self@[j] == other@[j],
            decreases self.len() - i,
        {
            if self[i] != other[i] {
                return false;
            }
            i = i + 1;
        }
        assert(self@ =~= other@);
        true
    }
}

/// Whether some entry has the key `k`.
pub open spec fn has_key<K: Key, V>(entries: Seq<(K, V)>, k: K::V) -> bool {
    exists|i: int| 0 <= i < entries.len() && (#[trigger] entries[i]).0@ == k
}

/// The position of an entry with the key `k`.
pub open spec fn position<K: Key, V>(entries: Seq<(K, V)>, k: K::V) -> int {
    choose|i: int| 0 <= i < entries.len() && (#[trigger] entries[i]).0@ == k
}

/// No key occurs twice.
pub open spec fn distinct<K: Key, V>(entries: Seq<(K, V)>) -> bool {
    forall|i: int, j: int|
        0 <= i < j < entries.len() ==> (#[trigger] entries[i]).0@ != (#[trigger] entries[j]).0@
}

/// The map that a list of entries with distinct keys stands for.
pub open spec fn map_of<K: Key, V>(entries: Seq<(K, V)>) -> Map<K::V, V> {
    Map::new(|k: K::V| has_key(entries, k), |k: K::V| entries[position(entries, k)].1)
}

/// In a list with distinct keys, each entry is found under its own key.
pub proof fn lemma_entry<K: Key, V>(entries: Seq<(K, V)>, i: int)
    requires
        distinct(entries),
        0 <= i < entries.len(),
    ensures
        has_key(entries, entries[i].0@),
        position(entries, entries[i].0@) == i,
        map_of(entries).contains_key(entries[i].0@),
        map_of(entries)[entries[i].0@] == entries[i].1,
{
    let p = position(entries, entries[i].0@);
    assert(p == i);
}

/// A new key at the end adds one binding.
pub proof fn lemma_push<K: Key, V>(entries: Seq<(K, V)>, key: K, value: V)
    requires
        distinct(entries),
        !has_key(entries, key@),
    ensures
        distinct(entries.push((key, value))),
        map_of(entries.push((key, value))) == map_of(entries).insert(key@, value),
{
    let after = entries.push((key, value));
    assert(distinct(after));
    assert forall|k: K::V| #[trigger]
        map_of(after).contains_key(k) == map_of(entries).insert(key@, value).contains_key(k) by {
        if has_key(entries, k) {
            let p = position(entries, k);
            assert(after[p].0@ == k);
        }
        assert(after[entries.len() as int].0@ == key@);
    }
    assert forall|k: K::V| #[trigger] map_of(after).contains_key(k) implies map_of(after)[k]
        == map_of(entries).insert(key@, value)[k] by {
        let p = position(after, k);
        lemma_entry(after, p);
        if p < entries.len() {
            lemma_entry(entries, p);
        }
    }
}

/// A new value under a key that is there changes one binding.
pub proof fn lemma_update<K: Key, V>(entries: Seq<(K, V)>, i: int, key: K, value: V)
    requires
        distinct(entries),
        0 <= i < entries.len(),
        entries[i].0@ == key@,
    ensures
        distinct(entries.update(i, (key, value))),
        map_of(entries.update(i, (key, value))) == map_of(entries).insert(key@, value),
{
    let after = entries.update(i, (key, value));
    assert(distinct(after));
    assert forall|k: K::V| #[trigger]
        map_of(after).contains_key(k) == map_of(entries).insert(key@, value).contains_key(k) by {
        if has_key(entries, k) {
            let p = position(entries, k);
            assert(after[p].0@ == k);
        }
    }
    assert forall|k: K::V| #[trigger] map_of(after).contains_key(k) implies map_of(after)[k]
        == map_of(entries).insert(key@, value)[k] by {
        let p = position(after, k);
        lemma_entry(after, p);
        lemma_entry(entries, p);
    }
}

/// Taking an entry out removes its binding and no other.
pub proof fn lemma_remove<K: Key, V>(entries: Seq<(K, V)>, i: int)
    requires
        distinct(entries),
        0 <= i < entries.len(),
    ensures
        distinct(entries.remove(i)),
        map_of(entries.remove(i)) == map_of(entries).remove(entries[i].0@),
{
    let after = entries.remove(i);
    let key = entries[i].0@;
    assert(distinct(after));
    assert forall|k: K::V| #[trigger]
        map_of(after).contains_key(k) == map_of(entries).remove(key).contains_key(k) by {
        if has_key(entries, k) && k != key {
            let p = position(entries, k);
            let q = if p < i { p } else { p - 1 };
            assert(after[q].0@ == k);
        }
    }
    assert forall|k: K::V| #[trigger] map_of(after).contains_key(k) implies map_of(after)[k]
        == map_of(entries).remove(key)[k] by {
        let q = position(after, k);
        let p = if q < i { q } else { q + 1 };
        lemma_entry(after, q);
        lemma_entry(entries, p);
    }
}

/// A map from keys to values, held as a list of entries with distinct keys.
pub struct Dict<K: Key, V> {
    entries: Vec<(K, V)>,
}

impl<K: Key, V> View for Dict<K, V> {
    type V = Map<K::V, V>;

    closed spec fn view(&self) -> Map<K::V, V> {
        map_of(self.entries@)
    }
}

impl<K: Key, V> Dict<K, V> {
    /// The invariant of the type: no key occurs twice among the entries.
    pub closed spec fn wf(&self) -> bool {
        distinct(self.entries@)
    }

    /// The empty map.
    pub fn new() -> (d: Self)
        ensures
            d.wf(),
            d@ == Map::<K::V, V>::empty(),
    {
        Dict { entries: Vec::new() }
    }

    /// The position of the entry with the key `key`.
    fn find(&self, key: &K) -> (r: Option<usize>)
        ensures
            match r {
                Some(i) => i < self.entries.len() && self.entries@[i as int].0@ == key@,
                None => !has_key(self.entries@, key@),
            },
    {
        let mut i: usize = 0;
        while i < self.entries.len()
            invariant
                0 <= i <= self.entries.len(),
                forall|j: int| 0 <= j < i ==> (#[trigger] self.entries@[j]).0@ != key@,
            decreases self.entries.len() - i,
        {
            if self.entries[i].0.same(key) {
                return Some(i);
            }
            i = i + 1;
        }
        None
    }

    /// The number of bindings.
    pub fn len(&self) -> (n: usize)
        requires
            self.wf(),
        ensures
            n == self@.len(),
            self@.dom().finite(),
    {
        proof {
            lemma_len(self.entries@);
        }
        self.entries.len()
    }

    /// Whether `key` is bound.
    pub fn contains_key(&self, key: &K) -> (r: bool)
        ensures
            r == self@.contains_key(key@),
    {
        self.find(key).is_some()
    }

    /// The value bound to `key`.
    pub fn get(&self, key: &K) -> (r: Option<&V>)
        requires
            self.wf(),
        ensures
            match r {
                Some(v) => self@.contains_key(key@) && *v == self@[key@],
                None => !self@.contains_key(key@),
            },
    {
        match self.find(key) {
            Some(i) => {
                proof {
                    lemma_entry(self.entries@, i as int);
                }
                Some(&self.entries[i].1)
            },
            None => None,
        }
    }

    /// Binds `key` to `value`, in place of what it was bound to before.
    pub fn insert(&mut self, key: K, value: V)
        requires
            old(self).wf(),
        ensures
            final(self).wf(),
            final(self)@ == old(self)@.insert(key@, value),
    {
        match self.find(&key) {
            Some(i) => {
                proof {
                    lemma_update(self.entries@, i as int, key, value);
                }
                self.entries.set(i, (key, value));
            },
            None => {
                proof {
                    lemma_push(self.entries@, key, value);
                }
                self.entries.push((key, value));
            },
        }
    }

    /// Binds `key` to `value` unless the key is bound already. Returns
    /// whether the binding was made.
    pub fn insert_if_absent(&mut self, key: K, value: V) -> (r: bool)
        requires
            old(self).wf(),
        ensures
            final(self).wf(),
            r == !old(self)@.contains_key(key@),
            final(self)@ == if r {
                old(self)@.insert(key@, value)
            } else {
                old(self)@
            },
    {
        match self.find(&key) {
            Some(_) => false,
            None => {
                proof {
                    lemma_push(self.entries@, key, value);
                }
                self.entries.push((key, value));
                true
            },
        }
    }

    /// Takes the binding of `key` out, and returns its value.
    pub fn remove(&mut self, key: &K) -> (r: Option<V>)
        requires
            old(self).wf(),
        ensures
            final(self).wf(),
            final(self)@ == old(self)@.remove(key@),
            match r {
                Some(v) => old(self)@.contains_key(key@) && v == old(self)@[key@],
                None => !old(self)@.contains_key(key@),
            },
    {
        match self.find(key) {
            Some(i) => {
                proof {
                    lemma_entry(self.entries@, i as int);
                    lemma_remove(self.entries@, i as int);
                }
                let entry = self.entries.remove(i);
                Some(entry.1)
            },
            None => {
                None
            },
        }
    }

    /// Takes some binding out, and returns it; `None` when the map is empty.
    pub fn pop(&mut self) -> (r: Option<(K, V)>)
        requires
            old(self).wf(),
        ensures
            final(self).wf(),
            old(self)@.dom().finite(),
            match r {
                Some((k, v)) => old(self)@.contains_key(k@) && old(self)@[k@] == v && final(self)@
                    == old(self)@.remove(k@) && final(self)@.len() + 1 == old(self)@.len(),
                None => old(self)@ == Map::<K::V, V>::empty() && final(self)@ == old(self)@,
            },
    {
        proof {
            lemma_len(self.entries@);
        }
        let n = self.entries.len();
        if n == 0 {
            return None;
        }
        proof {
            lemma_entry(self.entries@, n - 1);
            lemma_remove(self.entries@, n - 1);
            lemma_len(self.entries@.remove(n - 1));
        }
        let entry = self.entries.remove(n - 1);
        Some(entry)
    }
}

/// A list with distinct keys has as many bindings as entries.
pub proof fn lemma_len<K: Key, V>(entries: Seq<(K, V)>)
    requires
        distinct(entries),
    ensures
        map_of(entries).dom().finite(),
        map_of(entries).len() == entries.len(),
    decreases entries.len(),
{
    if entries.len() == 0 {
        assert(map_of(entries) =~= Map::<K::V, V>::empty());
    } else {
        let n = entries.len() - 1;
        lemma_entry(entries, n);
        lemma_remove(entries, n);
        lemma_len(entries.remove(n));
    }
}

} // verus!
