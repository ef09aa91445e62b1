use vstd::prelude::*;

use std::collections::HashMap;
use std::sync::Arc;

use crate::data::{Data, DataObjectId, share_handle};

verus! {

broadcast use vstd::std_specs::hash::group_hash_axioms;

/// The worker's table of the data objects it owns: each identifier bound to
/// the shared handle for its data. An identifier resolves to exactly one
/// handle for the worker's lifetime; it is never reassigned.
pub struct ObjectTable {
    entries: HashMap<u64, Arc<Data>>,
}

impl View for ObjectTable {
    type V = Map<u64, Arc<Data>>;

    closed spec fn view(&self) -> Map<u64, Arc<Data>> {
        self.entries@
    }
}

impl ObjectTable {
    /// An empty table.
    pub fn new() -> (t: ObjectTable)
        ensures
            t@ == Map::<u64, Arc<Data>>::empty(),
    {
        ObjectTable { entries: HashMap::new() }
    }

    /// Binds a fresh identifier to a data handle. Identifiers are never
    /// reassigned, so the id must not be present yet.
    pub fn insert(&mut self, id: DataObjectId, data: Arc<Data>)
        requires
            !old(self)@.contains_key(id.value),
        ensures
            final(self)@ == old(self)@.insert(id.value, data),
    {
        self.entries.insert(id.value, data);
    }

    /// The handle bound to `id`, if the worker owns such an object.
    pub fn lookup(&self, id: DataObjectId) -> (r: Option<&Arc<Data>>)
        ensures
            match r {
                Some(d) => self@.contains_key(id.value) && *d == self@[id.value],
                None => !self@.contains_key(id.value),
            },
    {
        self.entries.get(&id.value)
    }

    /// A new shared handle to the object named by `id`, if the worker owns
    /// one: the same underlying data, not a copy.
    pub fn share(&self, id: DataObjectId) -> (r: Option<Arc<Data>>)
        ensures
            match r {
                Some(d) => self@.contains_key(id.value) && d == self@[id.value],
                None => !self@.contains_key(id.value),
            },
    {
        match self.lookup(id) {
            Some(d) => Some(share_handle(d)),
            None => None,
        }
    }
}

} // verus!
