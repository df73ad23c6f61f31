//! Correlation table: the single point of truth for "who is waiting for
//! what".
//!
//! A mapping from correlation id to the pending call registered under it,
//! keys unique, insertion order irrelevant. The table is generic in the
//! callback it stores: the client owns one table and routes every inbound
//! response through it. Serializing concurrent access is the caller's duty;
//! the table itself is a plain value.
use std::collections::HashMap;
use vstd::prelude::*;

verus! {

broadcast use vstd::std_specs::hash::group_hash_axioms;

/// The pending calls, keyed by correlation id.
pub struct CorrelationTable<T> {
    pending: HashMap<u32, T>,
}

impl<T> View for CorrelationTable<T> {
    type V = Map<u32, T>;

    closed spec fn view(&self) -> Map<u32, T> {
        self.pending@
    }
}

impl<T> CorrelationTable<T> {
    /// An empty table: nobody is waiting.
    pub fn new() -> (t: Self)
        ensures
            t@ == Map::<u32, T>::empty(),
    {
        CorrelationTable { pending: HashMap::new() }
    }

    /// Registers `callback` as the pending call for `id`. An entry already
    /// present under `id` (a wrapped counter colliding with an outstanding
    /// call) is silently overwritten, as the design accepts.
    pub fn insert(&mut self, id: u32, callback: T)
        ensures
            final(self)@ == old(self)@.insert(id, callback),
    {
        self.pending.insert(id, callback);
    }

    /// Removes and returns the pending call for `id`. Absence is a
    /// legitimate outcome (a late, duplicate, or malformed message) and is
    /// reported as `None`.
    pub fn take(&mut self, id: u32) -> (r: Option<T>)
        ensures
            final(self)@ == old(self)@.remove(id),
            r matches Some(callback) ==> (old(self)@.contains_key(id) && callback == old(
                self,
            )@[id]),
            r is None ==> !old(self)@.contains_key(id),
    {
        self.pending.remove(&id)
    }

    /// How many calls are outstanding.
    pub fn len(&self) -> (n: usize)
        ensures
            n == self@.len(),
    {
        self.pending.len()
    }
}

/// Law: the lifecycle of one correlation entry. Registering a callback under
/// an id stores exactly that callback; taking the id yields it and leaves the
/// id absent, so a second take finds nothing; and an id never inserted is
/// absent from the empty table.
pub proof fn lemma_correlation_lifecycle<T>(table: Map<u32, T>, id: u32, callback: T)
    ensures
        table.insert(id, callback).contains_key(id),
        table.insert(id, callback)[id] == callback,
        !table.insert(id, callback).remove(id).contains_key(id),
        !Map::<u32, T>::empty().contains_key(id),
{
}

} // verus!
