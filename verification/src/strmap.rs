//! An insertion-ordered map keyed by strings.
//!
//! Entries are kept in the order in which their keys were first inserted;
//! inserting under an existing key replaces the value and keeps the position.

use vstd::prelude::*;

verus! {

/// Whether no key occurs twice among the entries.
pub open spec fn distinct_keys<V>(entries: Seq<(String, V)>) -> bool {
    forall|i: int, j: int|
        0 <= i < j < entries.len() ==> (#[trigger] entries[i]).0@ != (#[trigger] entries[j]).0@
}

/// Whether some entry is stored under `key`.
pub open spec fn has_key<V>(entries: Seq<(String, V)>, key: Seq<char>) -> bool {
    exists|i: int| 0 <= i < entries.len() && (#[trigger] entries[i]).0@ == key
}

/// Position of an entry stored under `key`; meaningful only when
/// `has_key(entries, key)`, and unique when the keys are distinct.
pub open spec fn index_of<V>(entries: Seq<(String, V)>, key: Seq<char>) -> int {
    choose|i: int| 0 <= i < entries.len() && (#[trigger] entries[i]).0@ == key
}

/// The entries after storing `value` under `key`: an existing entry is
/// replaced where it stands, a new one goes to the end.
pub open spec fn stored<V>(entries: Seq<(String, V)>, key: String, value: V) -> Seq<(String, V)> {
    if has_key(entries, key@) {
        entries.update(index_of(entries, key@), (key, value))
    } else {
        entries.push((key, value))
    }
}

/// The mathematical map that a sequence of entries with distinct keys stands for.
pub open spec fn map_of<V>(entries: Seq<(String, V)>) -> Map<Seq<char>, V> {
    Map::new(
        |k: Seq<char>| has_key(entries, k),
        |k: Seq<char>| entries[index_of(entries, k)].1,
    )
}

/// With distinct keys, the entry at position `i` is the one found under its key.
pub proof fn lemma_index_of_unique<V>(entries: Seq<(String, V)>, i: int)
    requires
        distinct_keys(entries),
        0 <= i < entries.len(),
    ensures
        has_key(entries, entries[i].0@),
        index_of(entries, entries[i].0@) == i,
{
    let j = index_of(entries, entries[i].0@);
    assert(0 <= j < entries.len() && entries[j].0@ == entries[i].0@);
}

/// Storing keeps the keys distinct and acts on the map as `Map::insert`.
pub proof fn lemma_stored<V>(entries: Seq<(String, V)>, key: String, value: V)
    requires
        distinct_keys(entries),
    ensures
        distinct_keys(stored(entries, key, value)),
        map_of(stored(entries, key, value)) == map_of(entries).insert(key@, value),
        has_key(entries, key@) ==> stored(entries, key, value).len() == entries.len(),
        !has_key(entries, key@) ==> stored(entries, key, value).len() == entries.len() + 1,
{
    let after = stored(entries, key, value);
    let p = if has_key(entries, key@) {
        index_of(entries, key@)
    } else {
        entries.len() as int
    };
    assert(0 <= p < after.len() && after[p] == (key, value));
    assert forall|i: int| 0 <= i < after.len() && i != p implies #[trigger] after[i]
        == entries[i] && entries[i].0@ != key@ by {
        if has_key(entries, key@) {
            lemma_index_of_unique(entries, i);
        }
    }
    assert forall|k: Seq<char>| has_key(after, k) == (k == key@ || has_key(entries, k)) by {
        if has_key(entries, k) && k != key@ {
            let i = index_of(entries, k);
            assert(after[i].0@ == k);
        }
    }
    assert forall|k: Seq<char>| has_key(after, k) implies #[trigger] after[index_of(after, k)].1
        == map_of(entries).insert(key@, value)[k] by {
        let i = index_of(after, k);
        if k != key@ {
            lemma_index_of_unique(entries, i);
        } else {
            lemma_index_of_unique(after, p);
        }
    }
}

/// An insertion-ordered map from strings to values of type `V`.
#[derive(Debug)]
pub struct StrMap<V> {
    entries: Vec<(String, V)>,
}

impl<V> StrMap<V> {
    /// The entries in insertion order.
    pub closed spec fn entries(&self) -> Seq<(String, V)> {
        self.entries@
    }

    /// Validity: no key occurs twice.
    pub open spec fn wf(&self) -> bool {
        distinct_keys(self.entries())
    }

    /// The map as a mathematical map from keys to values.
    pub open spec fn view(&self) -> Map<Seq<char>, V> {
        map_of(self.entries())
    }

    /// An empty map.
    pub fn new() -> (m: Self)
        ensures
            m.wf(),
            m.entries() == Seq::<(String, V)>::empty(),
    {
        StrMap { entries: Vec::new() }
    }

    /// Number of entries, which is the number of keys.
    pub fn len(&self) -> (n: usize)
        ensures
            n == self.entries().len(),
    {
        self.entries.len()
    }

    /// Whether the map has no entry.
    pub fn is_empty(&self) -> (b: bool)
        ensures
            b == (self.entries().len() == 0),
    {
        self.entries.len() == 0
    }

    /// Position of the entry stored under `key`, if there is one.
    pub fn find(&self, key: &str) -> (r: Option<usize>)
        requires
            self.wf(),
        ensures
            match r {
                Some(i) => has_key(self.entries(), key@) && i == index_of(self.entries(), key@),
                None => !has_key(self.entries(), key@),
            },
    {
        let wanted = key.to_owned();
        let mut i: usize = 0;
        while i < self.entries.len()
            invariant
                0 <= i <= self.entries.len(),
                wanted@ == key@,
                distinct_keys(self.entries@),
                forall|j: int| 0 <= j < i ==> (#[trigger] self.entries@[j]).0@ != key@,
            decreases self.entries.len() - i,
        {
            if self.entries[i].0 == wanted {
                proof {
                    lemma_index_of_unique(self.entries@, i as int);
                }
                return Some(i);
            }
            i += 1;
        }
        None
    }

    /// Whether an entry is stored under `key`.
    pub fn contains_key(&self, key: &str) -> (b: bool)
        requires
            self.wf(),
        ensures
            b == self@.contains_key(key@),
    {
        self.find(key).is_some()
    }

    /// The value stored under `key`, if there is one.
    pub fn get(&self, key: &str) -> (r: Option<&V>)
        requires
            self.wf(),
        ensures
            match r {
                Some(v) => self@.contains_key(key@) && *v == self@[key@],
                None => !self@.contains_key(key@),
            },
    {
        match self.find(key) {
            Some(i) => Some(&self.entries[i].1),
            None => None,
        }
    }

    /// The entries in insertion order.
    pub fn as_entries(&self) -> (entries: &Vec<(String, V)>)
        ensures
            entries@ == self.entries(),
    {
        &self.entries
    }

    /// The entries in insertion order, by value.
    pub fn into_entries(self) -> (entries: Vec<(String, V)>)
        ensures
            entries@ == self.entries(),
    {
        self.entries
    }

    /// The key at position `i` in insertion order.
    pub fn key_at(&self, i: usize) -> (k: &String)
        requires
            i < self.entries().len(),
        ensures
            *k == self.entries()[i as int].0,
    {
        &self.entries[i].0
    }

    /// The value at position `i` in insertion order.
    pub fn value_at(&self, i: usize) -> (v: &V)
        requires
            i < self.entries().len(),
        ensures
            *v == self.entries()[i as int].1,
    {
        &self.entries[i].1
    }

    /// Stores `value` under `key`. An existing entry is replaced where it
    /// stands; a new entry goes to the end.
    pub fn insert(&mut self, key: String, value: V)
        requires
            old(self).wf(),
        ensures
            final(self).wf(),
            final(self).entries() == stored(old(self).entries(), key, value),
            final(self)@ == old(self)@.insert(key@, value),
    {
        proof {
            lemma_stored(self.entries@, key, value);
        }
        match self.find(key.as_str()) {
            Some(i) => {
                self.entries.set(i, (key, value));
            },
            None => {
                self.entries.push((key, value));
            },
        }
    }
}

} // verus!
