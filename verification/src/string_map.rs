//! A map keyed by strings.
//!
//! The entries are kept in a vector. Their keys are distinct, so the map that a
//! `StringMap` stands for does not depend on the order of the entries.

use vstd::prelude::*;
use vstd::std_specs::cmp::{PartialEqSpec, PartialEqSpecImpl};

use crate::text::same_text;

verus! {

/// A map from strings to values.
#[derive(Debug)]
pub struct StringMap<V> {
    entries: Vec<(String, V)>,
}

/// The map that a list of entries stands for.
pub open spec fn entries_map<V>(entries: Seq<(String, V)>) -> Map<Seq<char>, V>
    decreases entries.len(),
{
    if entries.len() == 0 {
        Map::empty()
    } else {
        entries_map(entries.drop_last()).insert(entries.last().0@, entries.last().1)
    }
}

/// The texts of a map of strings.
pub open spec fn text_map(map: Map<Seq<char>, String>) -> Map<Seq<char>, Seq<char>> {
    Map::new(|k: Seq<char>| map.contains_key(k), |k: Seq<char>| map[k]@)
}

/// Setting a value sets its text.
pub broadcast proof fn lemma_text_map_insert(
    map: Map<Seq<char>, String>,
    key: Seq<char>,
    value: String,
)
    ensures
        #[trigger] text_map(map.insert(key, value)) == text_map(map).insert(key, value@),
{
    assert(text_map(map.insert(key, value)) =~= text_map(map).insert(key, value@));
}

/// No key occurs twice in a list of entries.
pub open spec fn distinct_keys<V>(entries: Seq<(String, V)>) -> bool {
    forall|i: int, j: int|
        0 <= i < j < entries.len() ==> (#[trigger] entries[i]).0@ != (#[trigger] entries[j]).0@
}

/// Each key of the map is the key of an entry, which holds the value.
pub proof fn lemma_entries_map_index<V>(entries: Seq<(String, V)>, key: Seq<char>) -> (i: int)
    requires
        entries_map(entries).contains_key(key),
    ensures
        0 <= i < entries.len(),
        entries[i].0@ == key,
        entries[i].1 == entries_map(entries)[key],
    decreases entries.len(),
{
    if entries.last().0@ == key {
        entries.len() - 1
    } else {
        lemma_entries_map_index(entries.drop_last(), key)
    }
}

/// An entry of a list with distinct keys is an entry of the map.
pub proof fn lemma_entries_map_contains<V>(entries: Seq<(String, V)>, i: int)
    requires
        distinct_keys(entries),
        0 <= i < entries.len(),
    ensures
        entries_map(entries).contains_key(entries[i].0@),
        entries_map(entries)[entries[i].0@] == entries[i].1,
    decreases entries.len(),
{
    if i < entries.len() - 1 {
        lemma_entries_map_contains(entries.drop_last(), i);
        assert(entries.drop_last()[i] == entries[i]);
        assert(entries[i].0@ != entries[entries.len() - 1].0@);
    }
}

/// The map of a list with distinct keys has as many keys as the list has entries.
pub proof fn lemma_entries_map_len<V>(entries: Seq<(String, V)>)
    requires
        distinct_keys(entries),
    ensures
        entries_map(entries).dom().finite(),
        entries_map(entries).dom().len() == entries.len(),
    decreases entries.len(),
{
    if entries.len() > 0 {
        let rest = entries.drop_last();
        lemma_entries_map_len(rest);
        if entries_map(rest).contains_key(entries.last().0@) {
            let i = lemma_entries_map_index(rest, entries.last().0@);
            assert(entries[i].0@ != entries[entries.len() - 1].0@);
        }
    }
}

/// A key that no entry has is not in the map.
pub proof fn lemma_entries_map_absent<V>(entries: Seq<(String, V)>, key: Seq<char>)
    requires
        forall|i: int| 0 <= i < entries.len() ==> (#[trigger] entries[i]).0@ != key,
    ensures
        !entries_map(entries).contains_key(key),
{
    if entries_map(entries).contains_key(key) {
        let i = lemma_entries_map_index(entries, key);
    }
}

/// Taking an entry out of a list with distinct keys takes its key out of the map.
pub proof fn lemma_entries_map_remove<V>(entries: Seq<(String, V)>, i: int)
    requires
        distinct_keys(entries),
        0 <= i < entries.len(),
    ensures
        distinct_keys(entries.remove(i)),
        entries_map(entries.remove(i)) == entries_map(entries).remove(entries[i].0@),
{
    let rest = entries.remove(i);
    let key = entries[i].0@;
    assert(distinct_keys(rest));
    assert forall|k: Seq<char>| #[trigger]
        entries_map(rest).contains_key(k) implies entries_map(entries).remove(key).contains_key(k)
        && entries_map(rest)[k] == entries_map(entries)[k] by {
        let j = lemma_entries_map_index(rest, k);
        let o = if j < i {
            j
        } else {
            j + 1
        };
        assert(rest[j] == entries[o]);
        lemma_entries_map_contains(entries, o);
    }
    assert forall|k: Seq<char>| #[trigger]
        entries_map(entries).remove(key).contains_key(k) implies entries_map(rest).contains_key(
        k,
    ) by {
        let o = lemma_entries_map_index(entries, k);
        let j = if o < i {
            o
        } else {
            o - 1
        };
        assert(rest[j] == entries[o]);
        lemma_entries_map_contains(rest, j);
    }
    assert(entries_map(rest) =~= entries_map(entries).remove(key));
}

impl<V> View for StringMap<V> {
    type V = Map<Seq<char>, V>;

    closed spec fn view(&self) -> Map<Seq<char>, V> {
        entries_map(self.entries@)
    }
}

impl<V> StringMap<V> {
    #[verifier::type_invariant]
    spec fn keys_are_distinct(self) -> bool {
        distinct_keys(self.entries@)
    }

    /// The empty map.
    pub fn new() -> (r: Self)
        ensures
            r@ == Map::<Seq<char>, V>::empty(),
    {
        StringMap { entries: Vec::new() }
    }

    /// The number of keys.
    pub fn len(&self) -> (r: usize)
        ensures
            self@.dom().finite(),
            r == self@.dom().len(),
    {
        proof {
            use_type_invariant(self);
            lemma_entries_map_len(self.entries@);
        }
        self.entries.len()
    }

    /// Is there no key in the map?
    pub fn is_empty(&self) -> (r: bool)
        ensures
            r == (self@ == Map::<Seq<char>, V>::empty()),
    {
        proof {
            use_type_invariant(self);
            lemma_entries_map_len(self.entries@);
        }
        if self.entries.len() == 0 {
            true
        } else {
            assert(self@.contains_key(self.entries@.last().0@));
            false
        }
    }

    /// The position of the entry with the given key.
    fn position(&self, key: &str) -> (r: Option<usize>)
        ensures
            match r {
                Some(i) => i < self.entries@.len() && self.entries@[i as int].0@ == key@,
                None => !self@.contains_key(key@),
            },
    {
        let mut i: usize = 0;
        while i < self.entries.len()
            invariant
                i <= self.entries@.len(),
                forall|j: int| 0 <= j < i ==> (#[trigger] self.entries@[j]).0@ != key@,
            decreases self.entries@.len() - i,
        {
            if same_text(self.entries[i].0.as_str(), key) {
                return Some(i);
            }
            i += 1;
        }
        proof {
            lemma_entries_map_absent(self.entries@, key@);
        }
        None
    }

    /// The value of a key.
    pub fn get(&self, key: &str) -> (r: Option<&V>)
        ensures
            match r {
                Some(value) => self@.contains_key(key@) && *value == self@[key@],
                None => !self@.contains_key(key@),
            },
    {
        proof {
            use_type_invariant(self);
        }
        match self.position(key) {
            Some(i) => {
                proof {
                    lemma_entries_map_contains(self.entries@, i as int);
                }
                Some(&self.entries[i].1)
            },
            None => None,
        }
    }

    /// Is the key in the map?
    pub fn contains_key(&self, key: &str) -> (r: bool)
        ensures
            r == self@.contains_key(key@),
    {
        self.get(key).is_some()
    }

    /// Takes a key out of the map and returns its value.
    pub fn remove(&mut self, key: &str) -> (r: Option<V>)
        ensures
            final(self)@ == old(self)@.remove(key@),
            match r {
                Some(value) => old(self)@.contains_key(key@) && value == old(self)@[key@],
                None => !old(self)@.contains_key(key@),
            },
    {
        proof {
            use_type_invariant(&*self);
        }
        match self.position(key) {
            Some(i) => {
                let ghost before = self.entries@;
                let mut entries: Vec<(String, V)> = Vec::new();
                std::mem::swap(&mut entries, &mut self.entries);
                let entry = entries.remove(i);
                proof {
                    lemma_entries_map_remove(before, i as int);
                    lemma_entries_map_contains(before, i as int);
                }
                self.entries = entries;
                Some(entry.1)
            },
            None => {
                assert(self@.remove(key@) =~= self@);
                None
            },
        }
    }

    /// Sets the value of a key and returns the value that it had.
    pub fn insert(&mut self, key: String, value: V) -> (r: Option<V>)
        ensures
            final(self)@ == old(self)@.insert(key@, value),
            match r {
                Some(previous) => old(self)@.contains_key(key@) && previous == old(self)@[key@],
                None => !old(self)@.contains_key(key@),
            },
    {
        let previous = self.remove(key.as_str());
        proof {
            use_type_invariant(&*self);
        }
        let ghost rest = self.entries@;
        let mut entries: Vec<(String, V)> = Vec::new();
        std::mem::swap(&mut entries, &mut self.entries);
        entries.push((key, value));
        proof {
            assert(entries@.drop_last() =~= rest);
            assert forall|i: int, j: int| 0 <= i < j < entries@.len() implies (
            #[trigger] entries@[i]).0@ != (#[trigger] entries@[j]).0@ by {
                if j == entries@.len() - 1 {
                    lemma_entries_map_contains(rest, i);
                    assert(rest[i] == entries@[i]);
                } else {
                    assert(rest[i] == entries@[i] && rest[j] == entries@[j]);
                }
            }
        }
        self.entries = entries;
        assert(self@ =~= old(self)@.insert(key@, value));
        previous
    }

    /// Sets the values of all keys of another map.
    pub fn extend(&mut self, other: StringMap<V>)
        ensures
            final(self)@ == old(self)@.union_prefer_right(other@),
    {
        let ghost start = self@;
        let ghost all = other@;
        let entries = other.into_entries();
        assert(start.union_prefer_right(entries_map(entries@.take(0))) =~= start);
        for entry in iter: entries
            invariant
                iter.seq() == entries@,
                self@ == start.union_prefer_right(entries_map(entries@.take(iter.index() as int))),
        {
            let ghost i = iter.index() as int;
            proof {
                let done = entries@.take(i + 1);
                assert(done.drop_last() =~= entries@.take(i));
                assert(start.union_prefer_right(entries_map(done)) =~= start.union_prefer_right(
                    entries_map(entries@.take(i)),
                ).insert(entry.0@, entry.1));
            }
            self.insert(entry.0, entry.1);
        }
        assert(entries@.take(entries@.len() as int) =~= entries@);
    }

    /// The entries, in no particular order.
    pub fn into_entries(self) -> (r: Vec<(String, V)>)
        ensures
            distinct_keys(r@),
            entries_map(r@) == self@,
    {
        proof {
            use_type_invariant(&self);
        }
        self.entries
    }

    /// The entries by reference, in no particular order.
    pub fn entries(&self) -> (r: &Vec<(String, V)>)
        ensures
            distinct_keys(r@),
            entries_map(r@) == self@,
    {
        proof {
            use_type_invariant(self);
        }
        &self.entries
    }
}

impl<V: Clone> Clone for StringMap<V> {
    /// The map with clones of the values.
    fn clone(&self) -> (r: Self)
        ensures
            r@.dom() == self@.dom(),
            forall|k: Seq<char>| #[trigger]
                self@.contains_key(k) ==> cloned::<V>(self@[k], r@[k]),
    {
        let entries = self.entries();
        let mut out: StringMap<V> = StringMap::new();
        let mut i: usize = 0;
        while i < entries.len()
            invariant
                i <= entries@.len(),
                out@.dom() == entries_map(entries@.take(i as int)).dom(),
                forall|k: Seq<char>| #[trigger]
                    out@.contains_key(k) ==> cloned::<V>(
                        entries_map(entries@.take(i as int))[k],
                        out@[k],
                    ),
            decreases entries@.len() - i,
        {
            assert(entries@.take(i + 1).drop_last() =~= entries@.take(i as int));
            let entry = &entries[i];
            out.insert(entry.0.clone(), entry.1.clone());
            i += 1;
            assert(out@.dom() =~= entries_map(entries@.take(i as int)).dom());
        }
        assert(entries@.take(i as int) =~= entries@);
        assert forall|k: Seq<char>| #[trigger] self@.contains_key(k) implies cloned::<V>(
            self@[k],
            out@[k],
        ) by {
            assert(out@.dom().contains(k));
            assert(out@.contains_key(k));
        }
        out
    }
}

/// Have two maps the same keys, with values that are equal?
pub open spec fn same_values<V: PartialEq>(a: Map<Seq<char>, V>, b: Map<Seq<char>, V>) -> bool {
    &&& a.dom() == b.dom()
    &&& forall|k: Seq<char>| #[trigger] a.contains_key(k) ==> a[k].eq_spec(&b[k])
}

impl<V: PartialEq> PartialEq for StringMap<V> {
    fn eq(&self, other: &Self) -> (r: bool) {
        if self.len() != other.len() {
            return false;
        }
        let entries = self.entries();
        let mut i: usize = 0;
        while i < entries.len()
            invariant
                i <= entries@.len(),
                distinct_keys(entries@),
                entries_map(entries@) == self@,
                forall|j: int|
                    0 <= j < i ==> other@.contains_key((#[trigger] entries@[j]).0@) && (
                    V::obeys_eq_spec() ==> entries@[j].1.eq_spec(&other@[entries@[j].0@])),
            decreases entries@.len() - i,
        {
            let entry = &entries[i];
            proof {
                lemma_entries_map_contains(entries@, i as int);
            }
            match other.get(entry.0.as_str()) {
                None => {
                    assert(self@.dom().contains(entry.0@));
                    assert(!other@.dom().contains(entry.0@));
                    return false;
                },
                Some(value) => {
                    if entry.1 != *value {
                        assert(self@.contains_key(entry.0@));
                        return false;
                    }
                },
            }
            i += 1;
        }
        proof {
            assert forall|k: Seq<char>| #[trigger] self@.contains_key(k) implies other@.contains_key(k) && (
            V::obeys_eq_spec() ==> self@[k].eq_spec(&other@[k])) by {
                let j = lemma_entries_map_index(entries@, k);
                assert(entries@[j].0@ == k);
            }
            assert(self@.dom().subset_of(other@.dom())) by {
                assert forall|k: Seq<char>| self@.dom().contains(k) implies other@.dom().contains(k) by {
                    assert(self@.contains_key(k));
                }
            }
            vstd::set_lib::lemma_subset_equality(self@.dom(), other@.dom());
        }
        true
    }
}

impl<V: PartialEq> PartialEqSpecImpl for StringMap<V> {
    open spec fn obeys_eq_spec() -> bool {
        V::obeys_eq_spec()
    }

    open spec fn eq_spec(&self, other: &Self) -> bool {
        same_values(self@, other@)
    }
}

impl StringMap<String> {
    /// A copy of the map.
    pub fn copy(&self) -> (r: Self)
        ensures
            r@ == self@,
    {
        let entries = self.entries();
        let mut out: StringMap<String> = StringMap::new();
        let mut i: usize = 0;
        while i < entries.len()
            invariant
                i <= entries@.len(),
                out@ == entries_map(entries@.take(i as int)),
            decreases entries@.len() - i,
        {
            assert(entries@.take(i + 1).drop_last() =~= entries@.take(i as int));
            let entry = &entries[i];
            out.insert(entry.0.clone(), entry.1.clone());
            i += 1;
        }
        assert(entries@.take(i as int) =~= entries@);
        out
    }
}

/// The values of a map are smaller than the map, as a recursion over nested maps needs it.
pub broadcast proof fn lemma_value_decreases<V>(m: StringMap<V>, key: Seq<char>)
    requires
        m@.contains_key(key),
    ensures
        #[trigger] (decreases_to!(m => m@[key])),
{
    let i = lemma_entries_map_index(m.entries@, key);
    assert(decreases_to!(m => m.entries));
    assert(decreases_to!(m.entries => m.entries@));
    assert(decreases_to!(m.entries@ => m.entries@[i]));
    assert(decreases_to!(m.entries@[i] => m.entries@[i].1));
}

} // verus!
