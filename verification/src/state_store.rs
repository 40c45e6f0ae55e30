//! A store of state values keyed by view id, and handles into it.
//!
//! Writing a value through `StateHandle::new` and reading it back through
//! `StateHandle::value` gives the value written; other entries are untouched.
use vstd::prelude::*;
use std::collections::HashMap;
use std::marker::PhantomData;

verus! {

broadcast use vstd::std_specs::hash::group_hash_axioms;

/// A stored value together with its dirty flag.
pub struct StateHolder<T> {
    pub value: T,
    pub dirty: bool,
}

impl<T> StateHolder<T> {
    /// A clean holder of `value`.
    pub fn new(value: T) -> (h: Self)
        ensures
            h.value == value,
            !h.dirty,
    {
        StateHolder { value, dirty: false }
    }
}

/// The store: one holder per id.
pub struct Runtime<T> {
    state_map: HashMap<u64, StateHolder<T>>,
}

impl<T> View for Runtime<T> {
    type V = Map<u64, StateHolder<T>>;

    closed spec fn view(&self) -> Map<u64, StateHolder<T>> {
        self.state_map@
    }
}

impl<T> Runtime<T> {
    /// An empty store.
    pub fn new() -> (r: Self)
        ensures
            r@ == Map::<u64, StateHolder<T>>::empty(),
    {
        Runtime { state_map: HashMap::new() }
    }
}

/// A handle to the state stored under `id`.
pub struct StateHandle<T> {
    pub id: u64,
    pub phantom: PhantomData<T>,
}

impl<T> Clone for StateHandle<T> {
    fn clone(&self) -> (r: Self)
        ensures
            r.id == self.id,
    {
        StateHandle { id: self.id, phantom: PhantomData }
    }
}

impl<T> Copy for StateHandle<T> {}

impl<T> StateHandle<T> {
    /// Stores `value`, clean, under `id` (replacing what was there) and
    /// returns a handle to it.
    pub fn new(runtime: &mut Runtime<T>, id: u64, value: T) -> (h: Self)
        ensures
            h.id == id,
            final(runtime)@ == old(runtime)@.insert(id, StateHolder { value, dirty: false }),
    {
        runtime.state_map.insert(id, StateHolder::new(value));
        Self { id, phantom: PhantomData }
    }

    /// The value stored for this handle.
    pub fn value<'a>(&self, runtime: &'a Runtime<T>) -> (v: &'a T)
        requires
            runtime@.contains_key(self.id),
        ensures
            *v == runtime@[self.id].value,
    {
        let holder = runtime.state_map.get(&self.id).unwrap();
        &holder.value
    }
}


/// Storing a value under an id (what `StateHandle::new` does to the store)
/// and reading it back (what `StateHandle::value` gives) yields the value
/// stored; the holders under other ids are untouched.
pub proof fn law_read_after_write<T>(store: Map<u64, StateHolder<T>>, id: u64, value: T, other: u64)
    ensures
        ({
            let after = store.insert(id, StateHolder { value, dirty: false });
            &&& after.contains_key(id)
            &&& after[id].value == value
            &&& other != id ==> after.contains_key(other) == store.contains_key(other)
            &&& (other != id && store.contains_key(other)) ==> after[other] == store[other]
        }),
{
}

} // verus!
