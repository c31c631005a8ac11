//! Searching a sorted slice for the greatest lower or the least upper bound of a key.

use std::cmp::Ordering;

use vstd::prelude::*;

verus! {

/// The kind of bound that a search looks for.
#[derive(Debug, Clone, Copy, PartialEq, Eq, Structural)]
pub enum Bound {
    /// The smallest index with value >= key (first element at or after).
    LeastUpper,
    /// The largest index with value <= key (last element at or before).
    GreatestLower,
}

/// Why a search found nothing.
#[derive(Debug)]
pub enum SearchError<E> {
    /// No element lies on the side of the key that the bound asks for.
    OutOfRange,
    /// The key of an element could not be had.
    KeyFunctionError(E),
}

impl Bound {
    /// The reason why a timestamp search is out of range.
    pub open spec fn reason(self) -> Seq<char> {
        match self {
            Bound::LeastUpper => "no version exists at or after this timestamp"@,
            Bound::GreatestLower => "no version exists at or before this timestamp"@,
        }
    }

    /// The reason why a timestamp search is out of range.
    pub fn out_of_range_reason(&self) -> (r: &'static str)
        ensures
            r@ == self.reason(),
    {
        match self {
            Bound::LeastUpper => "no version exists at or after this timestamp",
            Bound::GreatestLower => "no version exists at or before this timestamp",
        }
    }

    /// The element of `slice` on the side on which an out-of-range search failed: the first for
    /// `GreatestLower` (the key was below it) and the last for `LeastUpper` (the key was above
    /// it). None when `slice` is empty.
    pub fn boundary_of<'a, T>(&self, slice: &'a [T]) -> (r: Option<&'a T>)
        ensures
            match r {
                None => slice@.len() == 0,
                Some(t) => slice@.len() > 0 && *t == (match *self {
                    Bound::GreatestLower => slice@.first(),
                    Bound::LeastUpper => slice@.last(),
                }),
            },
    {
        if slice.len() == 0 {
            return None;
        }
        match self {
            Bound::GreatestLower => Some(&slice[0]),
            Bound::LeastUpper => Some(&slice[slice.len() - 1]),
        }
    }
}

/// How two keys compare.
#[derive(Debug, Clone, Copy, PartialEq, Eq, Structural)]
enum KeyOrder {
    Less,
    Equal,
    Greater,
}

/// Does the order of the keys obey the laws of a total order?
pub open spec fn lawful<K: Ord>() -> bool {
    vstd::laws_cmp::obeys_cmp::<K>()
}

/// Is the first key below the second?
pub open spec fn below<K: Ord>(a: K, b: K) -> bool {
    vstd::std_specs::cmp::OrdSpec::cmp_spec(&a, &b) == Ordering::Less
}

fn order_keys<K: Ord>(a: &K, b: &K) -> (r: KeyOrder)
    ensures
        lawful::<K>() ==> (r is Less <==> below(*a, *b)) && (r is Greater <==> below(*b, *a)),
{
    proof {
        reveal(vstd::laws_cmp::obeys_cmp_ord);
        reveal(vstd::laws_cmp::obeys_partial_cmp_spec_properties);
    }
    let r = match a.cmp(b) {
        Ordering::Less => KeyOrder::Less,
        Ordering::Equal => KeyOrder::Equal,
        Ordering::Greater => KeyOrder::Greater,
    };
    proof {
        if lawful::<K>() {
            let ab = vstd::std_specs::cmp::PartialOrdSpec::partial_cmp_spec(a, b);
            let ba = vstd::std_specs::cmp::PartialOrdSpec::partial_cmp_spec(b, a);
            assert(ab == Some(Ordering::Less) <==> ba == Some(Ordering::Greater));
            assert(ba == Some(Ordering::Less) <==> ab == Some(Ordering::Greater));
        }
    }
    r
}

proof fn lemma_below<K: Ord>(a: K, b: K, c: K)
    requires
        lawful::<K>(),
    ensures
        below(a, b) && !below(c, b) ==> below(a, c),
        !below(b, a) && below(b, c) ==> below(a, c),
        !below(b, a) && !below(c, b) ==> !below(c, a),
{
    reveal(vstd::laws_cmp::obeys_cmp_ord);
    reveal(vstd::laws_cmp::obeys_partial_cmp_spec_properties);
    reveal(vstd::laws_cmp::obeys_cmp_partial_ord);
    reveal(vstd::laws_eq::obeys_eq_spec_properties);
    lemma_order(a, b);
    lemma_order(b, c);
    lemma_order(a, c);
    lemma_order(b, a);
    lemma_order(c, b);
    lemma_order(c, a);
}

/// Two keys are below, above or equal.
proof fn lemma_order<K: Ord>(a: K, b: K)
    requires
        lawful::<K>(),
    ensures
        below(a, b) ==> !below(b, a),
        !below(a, b) && !below(b, a) <==> vstd::std_specs::cmp::PartialEqSpec::eq_spec(&a, &b),
        below(a, b) <==> vstd::std_specs::cmp::PartialOrdSpec::partial_cmp_spec(&a, &b) == Some(
            Ordering::Less,
        ),
        below(b, a) <==> vstd::std_specs::cmp::PartialOrdSpec::partial_cmp_spec(&a, &b) == Some(
            Ordering::Greater,
        ),
{
    reveal(vstd::laws_cmp::obeys_cmp_ord);
    reveal(vstd::laws_cmp::obeys_partial_cmp_spec_properties);
    let ab = vstd::std_specs::cmp::PartialOrdSpec::partial_cmp_spec(&a, &b);
    let ba = vstd::std_specs::cmp::PartialOrdSpec::partial_cmp_spec(&b, &a);
    assert(ab == Some(vstd::std_specs::cmp::OrdSpec::cmp_spec(&a, &b)));
    assert(ba == Some(vstd::std_specs::cmp::OrdSpec::cmp_spec(&b, &a)));
}

/// Can the key function return this key for the element?
pub open spec fn has_key<'a, T: 'a, K, E, F: Fn(&'a T) -> Result<K, E>>(
    key_fn: F,
    value: &'a T,
    key: K,
) -> bool {
    call_ensures(key_fn, (value,), Ok(key))
}

/// Can the key function return a key for the element?
pub open spec fn is_keyed<'a, T: 'a, K, E, F: Fn(&'a T) -> Result<K, E>>(
    key_fn: F,
    value: &'a T,
) -> bool {
    exists|k: K| #[trigger] has_key::<T, K, E, F>(key_fn, value, k)
}

/// Can the key function fail with this error on one of the values?
pub open spec fn fails_with<'a, T: 'a, K, E, F: Fn(&'a T) -> Result<K, E>>(
    values: Seq<T>,
    key_fn: F,
    error: E,
) -> bool {
    exists|i: int|
        0 <= i < values.len() && #[trigger] fails_on::<T, K, E, F>(key_fn, &values[i], error)
}

/// Can the key function fail with this error on the element?
pub open spec fn fails_on<'a, T: 'a, K, E, F: Fn(&'a T) -> Result<K, E>>(
    key_fn: F,
    value: &'a T,
    error: E,
) -> bool {
    call_ensures(key_fn, (value,), Err(error))
}

/// Are these the keys of the values, wherever the key function returns one?
pub open spec fn keys_are<'a, T: 'a, K, E, F: Fn(&'a T) -> Result<K, E>>(
    values: Seq<T>,
    key_fn: F,
    keys: Seq<K>,
) -> bool {
    &&& keys.len() == values.len()
    &&& forall|i: int, k: K|
        0 <= i < values.len() && #[trigger] has_key::<T, K, E, F>(key_fn, &values[i], k) ==> k
            == keys[i]
}

/// Are the keys sorted?
pub open spec fn sorted_keys<K: Ord>(keys: Seq<K>) -> bool {
    forall|i: int, j: int|
        0 <= i <= j < keys.len() ==> !below(#[trigger] keys[j], #[trigger] keys[i])
}

/// Does an element with this key lie before the place that the search looks for?
pub open spec fn before_place<K: Ord>(bound: Bound, element_key: K, key: K) -> bool {
    match bound {
        Bound::LeastUpper => below(element_key, key),
        Bound::GreatestLower => !below(key, element_key),
    }
}

/// Do the elements up to a place lie before what the search looks for, and the others not?
pub open spec fn splits_at<K: Ord>(keys: Seq<K>, bound: Bound, key: K, place: int) -> bool {
    &&& 0 <= place <= keys.len()
    &&& forall|i: int| 0 <= i < place ==> before_place(bound, #[trigger] keys[i], key)
    &&& forall|i: int| place <= i < keys.len() ==> !before_place(bound, #[trigger] keys[i], key)
}

/// Are these what the key function returns on the values?
pub open spec fn outcomes_are<'a, T: 'a, K, E, F: Fn(&'a T) -> Result<K, E>>(
    values: Seq<T>,
    key_fn: F,
    outcomes: Seq<Result<K, E>>,
) -> bool {
    &&& outcomes.len() == values.len()
    &&& forall|i: int, outcome: Result<K, E>|
        0 <= i < values.len() && #[trigger] call_ensures(key_fn, (&values[i],), outcome) ==> outcome
            == outcomes[i]
}

/// Where a search between two places ends that halves them again and again, given what the key function
/// returns. The first failure that it meets ends it.
pub open spec fn halving<K: Ord, E>(
    outcomes: Seq<Result<K, E>>,
    key: K,
    bound: Bound,
    lo: int,
    hi: int,
) -> Result<int, E>
    decreases hi - lo,
{
    if lo >= hi {
        Ok(lo)
    } else {
        let mid = lo + (hi - lo) / 2;
        match outcomes[mid] {
            Err(e) => Err(e),
            Ok(mid_key) => if before_place(bound, mid_key, key) {
                halving(outcomes, key, bound, mid + 1, hi)
            } else {
                halving(outcomes, key, bound, lo, mid)
            },
        }
    }
}

/// Can a search between two places that halves them again and again end so? It looks at the element in the
/// middle, and goes by what the key function returned on it, which may be one of several outcomes.
pub open spec fn may_end<'a, T: 'a, K: Ord, E, F: Fn(&'a T) -> Result<K, E>>(
    values: Seq<T>,
    key_fn: F,
    key: K,
    bound: Bound,
    lo: int,
    hi: int,
    ended: Result<int, E>,
) -> bool
    decreases hi - lo,
{
    if lo >= hi {
        ended == Ok::<int, E>(lo)
    } else {
        let mid = lo + (hi - lo) / 2;
        exists|outcome: Result<K, E>| #[trigger]
            call_ensures(key_fn, (&values[mid],), outcome) && match outcome {
                Err(e) => ended == Err::<int, E>(e),
                Ok(mid_key) => if before_place(bound, mid_key, key) {
                    may_end::<T, K, E, F>(values, key_fn, key, bound, mid + 1, hi, ended)
                } else {
                    may_end::<T, K, E, F>(values, key_fn, key, bound, lo, mid, ended)
                },
            }
    }
}

/// What the key function returned on the element in the middle is how the search goes on.
proof fn lemma_may_go_on<'a, T: 'a, K: Ord, E, F: Fn(&'a T) -> Result<K, E>>(
    values: Seq<T>,
    key_fn: F,
    key: K,
    bound: Bound,
    lo: int,
    hi: int,
    outcome: Result<K, E>,
    ended: Result<int, E>,
)
    requires
        lo < hi,
        call_ensures(key_fn, (&values[lo + (hi - lo) / 2],), outcome),
        match outcome {
            Err(e) => ended == Err::<int, E>(e),
            Ok(mid_key) => if before_place(bound, mid_key, key) {
                may_end::<T, K, E, F>(
                    values,
                    key_fn,
                    key,
                    bound,
                    lo + (hi - lo) / 2 + 1,
                    hi,
                    ended,
                )
            } else {
                may_end::<T, K, E, F>(values, key_fn, key, bound, lo, lo + (hi - lo) / 2, ended)
            },
        },
    ensures
        may_end::<T, K, E, F>(values, key_fn, key, bound, lo, hi, ended),
{
}

/// The index of the bound, given the place at which a search of so many values ended.
pub open spec fn bound_at(bound: Bound, place: int, len: int) -> Option<int> {
    match bound {
        Bound::LeastUpper => if place < len {
            Some(place)
        } else {
            None
        },
        Bound::GreatestLower => if place > 0 {
            Some(place - 1)
        } else {
            None
        },
    }
}

/// Is it the result of a search that ended so?
pub open spec fn is_result<E>(
    r: Result<usize, SearchError<E>>,
    ended: Result<int, E>,
    bound: Bound,
    len: int,
) -> bool {
    match (ended, r) {
        (Err(e), Err(SearchError::KeyFunctionError(error))) => error == e,
        (Ok(place), Ok(i)) => bound_at(bound, place, len) == Some(int_of(i)),
        (Ok(place), Err(SearchError::OutOfRange)) => bound_at(bound, place, len) is None,
        _ => false,
    }
}

/// Searches a slice, which is sorted by key, for the greatest lower or least upper bound of a key.
///
/// 1. For [`Bound::LeastUpper`], the result is the smallest index `i` with `values[i] >= key`.
/// 2. For [`Bound::GreatestLower`], it is the largest index `i` with `values[i] <= key`.
///
/// # Errors
///
/// [`SearchError::OutOfRange`] if there is no such index, and [`SearchError::KeyFunctionError`]
/// with the error of `key_fn` if it fails on an element that the search looks at.
pub fn binary_search_by_key_with_bounds<'a, T: 'a, K: Ord, E, F: Fn(&'a T) -> Result<K, E>>(
    values: &'a [T],
    key: K,
    key_fn: F,
    bound: Bound,
) -> (r: Result<usize, SearchError<E>>)
    requires
        forall|i: int| 0 <= i < values@.len() ==> call_requires(key_fn, (&#[trigger] values@[i],)),
    ensures
        match r {
            Ok(i) => i < values@.len() && is_keyed::<T, K, E, F>(key_fn, &values@[int_of(i)]),
            Err(SearchError::KeyFunctionError(e)) => fails_with::<T, K, E, F>(values@, key_fn, e),
            Err(SearchError::OutOfRange) => true,
        },
        forall|keys: Seq<K>|
            lawful::<K>() && #[trigger] keys_are::<T, K, E, F>(values@, key_fn, keys)
                && sorted_keys(keys) ==> match r {
                Ok(i) => splits_at(
                    keys,
                    bound,
                    key,
                    match bound {
                        Bound::LeastUpper => int_of(i),
                        Bound::GreatestLower => int_of(i) + 1,
                    },
                ),
                Err(SearchError::OutOfRange) => splits_at(
                    keys,
                    bound,
                    key,
                    match bound {
                        Bound::LeastUpper => int_of(values.len()),
                        Bound::GreatestLower => 0,
                    },
                ),
                Err(SearchError::KeyFunctionError(_)) => true,
            },
        lawful::<K>() ==> exists|ended: Result<int, E>| #[trigger]
            may_end::<T, K, E, F>(
                values@,
                key_fn,
                key,
                bound,
                0,
                int_of(values.len()),
                ended,
            ) && is_result(r, ended, bound, int_of(values.len())),
        forall|outcomes: Seq<Result<K, E>>|
            lawful::<K>() && #[trigger] outcomes_are::<T, K, E, F>(values@, key_fn, outcomes)
                ==> is_result(
                r,
                halving(outcomes, key, bound, 0, int_of(values.len())),
                bound,
                int_of(values.len()),
            ),
{
    let mut lo: usize = 0;
    let mut hi: usize = values.len();
    while lo != hi
        invariant
            lo <= hi <= values.len(),
            forall|i: int|
                0 <= i < values@.len() ==> call_requires(key_fn, (&#[trigger] values@[i],)),
            hi < values.len() ==> is_keyed::<T, K, E, F>(key_fn, &values@[int_of(hi)]),
            lo > 0 ==> is_keyed::<T, K, E, F>(key_fn, &values@[int_of(lo) - 1]),
            forall|keys: Seq<K>|
                lawful::<K>() && #[trigger] keys_are::<T, K, E, F>(values@, key_fn, keys)
                    && sorted_keys(keys) ==> (forall|i: int|
                    0 <= i < lo ==> before_place(bound, #[trigger] keys[i], key)) && (forall|i: int|
                    hi <= i < keys.len() ==> !before_place(bound, #[trigger] keys[i], key)),
            forall|ended: Result<int, E>|
                lawful::<K>() && #[trigger] may_end::<T, K, E, F>(
                    values@,
                    key_fn,
                    key,
                    bound,
                    int_of(lo),
                    int_of(hi),
                    ended,
                ) ==> may_end::<T, K, E, F>(
                    values@,
                    key_fn,
                    key,
                    bound,
                    0,
                    int_of(values.len()),
                    ended,
                ),
            forall|outcomes: Seq<Result<K, E>>|
                lawful::<K>() && #[trigger] outcomes_are::<T, K, E, F>(values@, key_fn, outcomes)
                    ==> halving(outcomes, key, bound, 0, int_of(values.len())) == halving(
                    outcomes,
                    key,
                    bound,
                    int_of(lo),
                    int_of(hi),
                ),
        decreases hi - lo,
    {
        let mid: usize = lo + (hi - lo) / 2;
        let ghost at = int_of(mid);
        let mid_key = match key_fn(&values[mid]) {
            Ok(mid_key) => mid_key,
            Err(e) => {
                assert(fails_on::<T, K, E, F>(key_fn, &values@[at], e));
                assert(fails_with::<T, K, E, F>(values@, key_fn, e));
                proof {
                    lemma_may_go_on::<T, K, E, F>(
                        values@,
                        key_fn,
                        key,
                        bound,
                        int_of(lo),
                        int_of(hi),
                        Err(e),
                        Err(e),
                    );
                }
                return Err(SearchError::KeyFunctionError(e));
            },
        };
        proof {
            assert(has_key::<T, K, E, F>(key_fn, &values@[at], mid_key));
            assert(is_keyed::<T, K, E, F>(key_fn, &values@[at]));
            assert forall|keys: Seq<K>|
                lawful::<K>() && #[trigger] keys_are::<T, K, E, F>(values@, key_fn, keys)
                    && sorted_keys(keys) implies (before_place(bound, mid_key, key) ==> forall|
                i: int,
            |
                0 <= i <= at ==> before_place(bound, #[trigger] keys[i], key)) && (!before_place(
                bound,
                mid_key,
                key,
            ) ==> forall|i: int|
                at <= i < keys.len() ==> !before_place(bound, #[trigger] keys[i], key)) by {
                assert(keys[at] == mid_key);
                assert forall|i: int| 0 <= i < keys.len() implies (i <= at && before_place(
                    bound,
                    mid_key,
                    key,
                ) ==> before_place(bound, #[trigger] keys[i], key)) && (i >= at && !before_place(
                    bound,
                    mid_key,
                    key,
                ) ==> !before_place(bound, keys[i], key)) by {
                    lemma_below(key, mid_key, keys[i]);
                    lemma_below(keys[i], mid_key, key);
                    lemma_order(key, mid_key);
                    lemma_order(keys[i], mid_key);
                    lemma_order(keys[i], key);
                }
            }
        }
        let upper = match (order_keys(&key, &mid_key), bound) {
            (KeyOrder::Less, _) => true,
            (KeyOrder::Equal, Bound::LeastUpper) => true,
            (KeyOrder::Equal, Bound::GreatestLower) => false,
            (KeyOrder::Greater, _) => false,
        };
        proof {
            if lawful::<K>() {
                lemma_order(key, mid_key);
                let start = if upper {
                    int_of(lo)
                } else {
                    at + 1
                };
                let end = if upper {
                    at
                } else {
                    int_of(hi)
                };
                assert forall|ended: Result<int, E>| #[trigger]
                    may_end::<T, K, E, F>(
                        values@,
                        key_fn,
                        key,
                        bound,
                        start,
                        end,
                        ended,
                    ) implies may_end::<T, K, E, F>(
                    values@,
                    key_fn,
                    key,
                    bound,
                    int_of(lo),
                    int_of(hi),
                    ended,
                ) by {
                    lemma_may_go_on::<T, K, E, F>(
                        values@,
                        key_fn,
                        key,
                        bound,
                        int_of(lo),
                        int_of(hi),
                        Ok(mid_key),
                        ended,
                    );
                }
            }
        }
        if upper {
            hi = mid;
        } else {
            lo = mid + 1;
            assert(int_of(lo) - 1 == at);
        }
    }
    assert(may_end::<T, K, E, F>(
        values@,
        key_fn,
        key,
        bound,
        int_of(lo),
        int_of(hi),
        Ok(int_of(lo)),
    ));
    match bound {
        Bound::LeastUpper => if hi < values.len() {
            Ok(hi)
        } else {
            Err(SearchError::OutOfRange)
        },
        Bound::GreatestLower => if lo > 0 {
            let found: usize = lo - 1;
            assert(int_of(found) == int_of(lo) - 1);
            Ok(found)
        } else {
            Err(SearchError::OutOfRange)
        },
    }
}

/// There is one place at which the sorted elements split, so the bound of a key is one index.
pub proof fn law_place_is_unique<K: Ord>(keys: Seq<K>, bound: Bound, key: K, a: int, b: int)
    requires
        splits_at(keys, bound, key, a),
        splits_at(keys, bound, key, b),
    ensures
        a == b,
{
    if a < b {
        assert(before_place(bound, keys[a], key));
    }
    if b < a {
        assert(before_place(bound, keys[b], key));
    }
}

/// The place at which a search for the least upper bound splits the elements does not lie behind
/// the one for the greatest lower bound, and the elements between the two equal the key.
pub proof fn law_bounds_enclose_the_key<K: Ord>(keys: Seq<K>, key: K, upper: int, lower: int)
    requires
        lawful::<K>(),
        splits_at(keys, Bound::LeastUpper, key, upper),
        splits_at(keys, Bound::GreatestLower, key, lower),
    ensures
        upper <= lower,
        forall|i: int|
            0 <= i < keys.len() ==> (upper <= i < lower <==> !below(#[trigger] keys[i], key)
                && !below(key, keys[i])),
{
    if lower < upper {
        lemma_order(keys[lower], key);
        assert(before_place(Bound::LeastUpper, keys[lower], key));
        assert(!before_place(Bound::GreatestLower, keys[lower], key));
    }
}

/// An index as a mathematical integer.
pub open spec fn int_of(i: usize) -> int {
    i as int
}

} // verus!
