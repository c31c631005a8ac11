//! A set of values that are handed out by identifier.

use std::collections::HashMap;

use vstd::prelude::*;

verus! {

broadcast use vstd::std_specs::hash::group_hash_axioms;

/// A set whose values are identified by numbers. The number 0 is never given out: it stands for no value.
pub struct ReferenceSet<T> {
    map: HashMap<usize, T>,
    next_id: usize,
}

/// What a [`ReferenceSet`] holds.
#[verifier::ext_equal]
pub struct ReferenceSetView<T> {
    /// The values by their identifiers.
    pub map: Map<usize, T>,
    /// The identifier that the next value gets.
    pub next_id: usize,
}

impl<T> ReferenceSetView<T> {
    /// The set after one more value.
    pub open spec fn put(self, value: T) -> ReferenceSetView<T> {
        ReferenceSetView {
            map: self.map.insert(self.next_id, value),
            next_id: (self.next_id + 1) as usize,
        }
    }

    /// The set after a value was taken out.
    pub open spec fn without(self, id: usize) -> ReferenceSetView<T> {
        ReferenceSetView { map: self.map.remove(id), ..self }
    }

    /// The value with the identifier.
    pub open spec fn get(self, id: usize) -> Option<T> {
        if self.map.contains_key(id) {
            Some(self.map[id])
        } else {
            None
        }
    }

    /// Is there an identifier left for so many more values?
    pub open spec fn has_room(self, values: int) -> bool {
        self.next_id + values <= usize::MAX
    }

    /// The identifiers given out so far are not 0 and will not be given out again.
    pub open spec fn valid(self) -> bool {
        &&& self.next_id > 0
        &&& forall|id: usize| #[trigger] self.map.contains_key(id) ==> 0 < id < self.next_id
    }
}

impl<T> View for ReferenceSet<T> {
    type V = ReferenceSetView<T>;

    closed spec fn view(&self) -> ReferenceSetView<T> {
        ReferenceSetView { map: self.map@, next_id: self.next_id }
    }
}

impl<T> ReferenceSet<T> {
    #[verifier::type_invariant]
    spec fn ids_are_valid(self) -> bool {
        self@.valid()
    }

    /// The empty set.
    pub fn new() -> (r: Self)
        ensures
            r@ == (ReferenceSetView::<T> { map: Map::empty(), next_id: 1 }),
    {
        ReferenceSet { map: HashMap::new(), next_id: 1 }
    }

    /// Puts a value into the set and returns the identifier with which it can be taken out.
    pub fn insert(&mut self, value: T) -> (r: usize)
        requires
            old(self)@.has_room(1),
        ensures
            r == old(self)@.next_id,
            final(self)@ == old(self)@.put(value),
            old(self)@.valid(),
            final(self)@.valid(),
    {
        proof {
            use_type_invariant(&*self);
        }
        let id = self.next_id;
        let ghost before = self@;
        let mut map: HashMap<usize, T> = HashMap::new();
        std::mem::swap(&mut map, &mut self.map);
        map.insert(id, value);
        proof {
            law_identifiers_are_never_reused(before, value, id);
            assert(before.put(value) == (ReferenceSetView { map: map@, next_id: (id + 1) as usize }));
        }
        *self = ReferenceSet { map, next_id: id + 1 };
        id
    }

    /// Is there an identifier left for so many more values?
    pub fn has_room(&self, values: usize) -> (r: bool)
        ensures
            r == self@.has_room(values as int),
    {
        values <= usize::MAX - self.next_id
    }

    /// Takes a value out of the set, if it is there.
    pub fn take(&mut self, i: usize) -> (r: Option<T>)
        ensures
            r == old(self)@.get(i),
            final(self)@ == old(self)@.without(i),
            old(self)@.valid(),
            final(self)@.valid(),
    {
        proof {
            use_type_invariant(&*self);
        }
        let id = self.next_id;
        let mut map: HashMap<usize, T> = HashMap::new();
        std::mem::swap(&mut map, &mut self.map);
        let value = map.remove(&i);
        *self = ReferenceSet { map, next_id: id };
        value
    }

    /// Is the value with the identifier in the set?
    pub fn contains(&self, id: usize) -> (r: bool)
        ensures
            r == self@.map.contains_key(id),
    {
        self.map.contains_key(&id)
    }

    /// The number of values in the set.
    pub fn len(&self) -> (r: usize)
        ensures
            r == self@.map.len(),
    {
        self.map.len()
    }

    /// Is there no value in the set?
    pub fn is_empty(&self) -> (r: bool)
        ensures
            r == (self@.map.len() == 0),
    {
        self.map.len() == 0
    }
}

impl<T> Default for ReferenceSet<T> {
    fn default() -> (r: Self)
        ensures
            r@ == (ReferenceSetView::<T> { map: Map::empty(), next_id: 1 }),
    {
        ReferenceSet::new()
    }
}

/// A value that was put into the set can be taken out once with its identifier, and then the set is what
/// it was before.
pub proof fn law_take_gives_back_what_was_put<T>(set: ReferenceSetView<T>, value: T)
    requires
        set.valid(),
        set.has_room(1),
    ensures
        set.put(value).get(set.next_id) == Some(value),
        set.put(value).without(set.next_id).get(set.next_id) is None,
        set.put(value).without(set.next_id).map == set.map,
{
    assert(!set.map.contains_key(set.next_id));
    assert(set.put(value).without(set.next_id).map =~= set.map);
}

/// Putting a value into the set and taking one out leave the other values as they are.
pub proof fn law_other_values_stay<T>(set: ReferenceSetView<T>, value: T, id: usize, other: usize)
    requires
        set.valid(),
        set.has_room(1),
    ensures
        other != set.next_id ==> set.put(value).get(other) == set.get(other),
        other != id ==> set.without(id).get(other) == set.get(other),
{
}

/// The set stays valid, so an identifier is never given out twice and never 0.
pub proof fn law_identifiers_are_never_reused<T>(set: ReferenceSetView<T>, value: T, id: usize)
    requires
        set.valid(),
        set.has_room(1),
    ensures
        set.next_id != 0,
        set.put(value).valid(),
        set.put(value).next_id > set.next_id,
        set.without(id).valid(),
        set.without(id).next_id == set.next_id,
{
    assert forall|k: usize| #[trigger] set.put(value).map.contains_key(k) implies 0 < k
        < set.put(value).next_id by {
        assert(k == set.next_id || set.map.contains_key(k));
    }
    assert forall|k: usize| #[trigger] set.without(id).map.contains_key(k) implies 0 < k
        < set.without(id).next_id by {
        assert(set.map.contains_key(k));
    }
}

} // verus!
