//! What a map keyed by strings gives back of what was put into it.

use vstd::prelude::*;

use crate::string_map::{lemma_entries_map_contains, lemma_entries_map_index, StringMap};

verus! {

/// Do two lookups of a key give the same?
pub open spec fn same_found<V>(a: Option<&V>, b: Option<&V>) -> bool {
    match (a, b) {
        (Some(a), Some(b)) => *a == *b,
        (None, None) => true,
        _ => false,
    }
}

/// In a new map nothing is found.
pub proof fn law_nothing_in_a_new_map<V>(m: StringMap<V>, key: &str, found: Option<&V>, n: usize, empty: bool)
    requires
        call_ensures(StringMap::<V>::new, (), m),
        call_ensures(StringMap::<V>::get, (&m, key), found),
        call_ensures(StringMap::<V>::len, (&m,), n),
        call_ensures(StringMap::<V>::is_empty, (&m,), empty),
    ensures
        found is None,
        n == 0,
        empty,
{
}

/// What was inserted under a key is found there, and what stands under other keys is found as before. What stood under the key is handed back.
pub proof fn law_inserted_value_is_found<V>(
    m: &mut StringMap<V>,
    key: String,
    value: V,
    r: Option<V>,
    k: &str,
    before: Option<&V>,
    after: Option<&V>,
)
    requires
        call_ensures(StringMap::<V>::get, (&*m, k), before),
        call_ensures(StringMap::<V>::insert, (m, key, value), r),
    ensures
        call_ensures(StringMap::<V>::get, (&*final(m), k), after) ==> {
            &&& k@ == key@ ==> after is Some && *after->0 == value
            &&& k@ != key@ ==> same_found(after, before)
        },
        k@ == key@ ==> (r is Some <==> before is Some),
        k@ == key@ && r is Some ==> r->0 == *before->0,
{
}

/// What was removed is not found any more, and what stands under other keys is found as before. What stood under the key is handed back.
pub proof fn law_removed_value_is_gone<V>(
    m: &mut StringMap<V>,
    key: &str,
    r: Option<V>,
    k: &str,
    before: Option<&V>,
    after: Option<&V>,
)
    requires
        call_ensures(StringMap::<V>::get, (&*m, k), before),
        call_ensures(StringMap::<V>::remove, (m, key), r),
    ensures
        call_ensures(StringMap::<V>::get, (&*final(m), k), after) ==> {
            &&& k@ == key@ ==> after is None
            &&& k@ != key@ ==> same_found(after, before)
        },
        k@ == key@ ==> (r is Some <==> before is Some),
        k@ == key@ && r is Some ==> r->0 == *before->0,
{
}

/// A map extended by another has what the other has, and else what it had.
pub proof fn law_extension_takes_precedence<V>(
    m: &mut StringMap<V>,
    other: StringMap<V>,
    k: &str,
    before: Option<&V>,
    in_other: Option<&V>,
    after: Option<&V>,
)
    requires
        call_ensures(StringMap::<V>::get, (&*m, k), before),
        call_ensures(StringMap::<V>::get, (&other, k), in_other),
        call_ensures(StringMap::<V>::extend, (m, other), ()),
    ensures
        call_ensures(StringMap::<V>::get, (&*final(m), k), after) ==> {
            &&& in_other is Some ==> same_found(after, in_other)
            &&& in_other is None ==> same_found(after, before)
        },
{
}

/// A key is contained exactly where something is found under it, and the entries are exactly what is found, each once.
pub proof fn law_entries_are_what_is_found<V>(
    m: StringMap<V>,
    key: &str,
    found: Option<&V>,
    contained: bool,
    entries: &Vec<(String, V)>,
    owned: Vec<(String, V)>,
    n: usize,
)
    requires
        call_ensures(StringMap::<V>::get, (&m, key), found),
        call_ensures(StringMap::<V>::contains_key, (&m, key), contained),
        call_ensures(StringMap::<V>::entries, (&m,), entries),
        call_ensures(StringMap::<V>::into_entries, (m,), owned),
        call_ensures(StringMap::<V>::len, (&m,), n),
    ensures
        contained <==> found is Some,
        found is Some <==> exists|i: int| 0 <= i < entries@.len() && (#[trigger] entries@[i]).0@ == key@,
        found is Some ==> exists|i: int|
            0 <= i < entries@.len() && (#[trigger] entries@[i]).0@ == key@ && entries@[i].1 == *found->0,
        found is Some ==> exists|i: int|
            0 <= i < owned@.len() && (#[trigger] owned@[i]).0@ == key@ && owned@[i].1 == *found->0,
        forall|i: int, j: int|
            0 <= i < j < entries@.len() ==> (#[trigger] entries@[i]).0@ != (#[trigger] entries@[j]).0@,
        n == entries@.len(),
        n == owned@.len(),
{
    crate::string_map::lemma_entries_map_len(entries@);
    crate::string_map::lemma_entries_map_len(owned@);
    if found is Some {
        let i = lemma_entries_map_index(entries@, key@);
        assert(entries@[i].0@ == key@);
        let j = lemma_entries_map_index(owned@, key@);
        assert(owned@[j].0@ == key@);
    }
    if exists|i: int| 0 <= i < entries@.len() && (#[trigger] entries@[i]).0@ == key@ {
        let i = choose|i: int| 0 <= i < entries@.len() && (#[trigger] entries@[i]).0@ == key@;
        lemma_entries_map_contains(entries@, i);
    }
}

/// A copy of a map of strings has what the map has.
pub proof fn law_copy_has_the_same(
    m: StringMap<String>,
    copy: StringMap<String>,
    key: &str,
    a: Option<&String>,
    b: Option<&String>,
)
    requires
        call_ensures(StringMap::<String>::copy, (&m,), copy),
        call_ensures(StringMap::<String>::get, (&m, key), a),
        call_ensures(StringMap::<String>::get, (&copy, key), b),
    ensures
        same_found(a, b),
{
}

/// Two maps are equal exactly where they have the same keys, with equal values.
pub proof fn law_equal_maps_have_the_same(a: StringMap<u64>, b: StringMap<u64>, r: bool)
    requires
        call_ensures(<StringMap<u64> as PartialEq>::eq, (&a, &b), r),
    ensures
        r <==> (forall|k: Seq<char>| #[trigger]
            a@.contains_key(k) <==> #[trigger] b@.contains_key(k)) && (forall|k: Seq<char>| #[trigger]
            a@.contains_key(k) ==> a@[k] == b@[k]),
{
    if (forall|k: Seq<char>| #[trigger] a@.contains_key(k) <==> #[trigger] b@.contains_key(k)) {
        assert(a@.dom() =~= b@.dom());
    }
    if a@.dom() == b@.dom() {
        assert forall|k: Seq<char>| #[trigger] a@.contains_key(k) <==> #[trigger] b@.contains_key(k) by {
            assert(a@.dom().contains(k) <==> b@.dom().contains(k));
        }
    }
}

} // verus!
