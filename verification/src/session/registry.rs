//! Per-session stream registry.

use std::collections::HashMap;

use vstd::prelude::*;

use crate::error::Error;
use crate::util::id::StreamId;

verus! {

broadcast use vstd::std_specs::hash::group_hash_axioms;

/// Map of stream id to the stream's shared state.
///
/// The registry owns an entry for as long as the stream is alive, so the
/// session reader can dispatch frames to it; the entry is dropped once the
/// stream is closed.
#[derive(Debug)]
pub struct StreamRegistry<V> {
    map: HashMap<StreamId, V>,
}

impl<V> View for StreamRegistry<V> {
    type V = Map<StreamId, V>;

    closed spec fn view(&self) -> Map<StreamId, V> {
        self.map@
    }
}

impl<V> StreamRegistry<V> {
    pub fn new() -> (r: Self)
        ensures
            r@ == Map::<StreamId, V>::empty(),
    {
        StreamRegistry { map: HashMap::new() }
    }

    /// Insert a new stream. Errors, leaving the registry as it is, if the id
    /// is already in use, which would indicate either a peer protocol
    /// violation or an allocator bug.
    pub fn insert(&mut self, id: StreamId, stream: V) -> (r: Result<(), Error>)
        ensures
            old(self)@.contains_key(id) ==> r == Err::<(), Error>(
                Error::Protocol("duplicate stream id"),
            ) && final(self)@ == old(self)@,
            !old(self)@.contains_key(id) ==> r is Ok && final(self)@ == old(self)@.insert(id, stream),
    {
        if self.map.contains_key(&id) {
            return Err(Error::Protocol("duplicate stream id"));
        }
        self.map.insert(id, stream);
        Ok(())
    }

    /// The stream registered under `id`, if any.
    pub fn get(&self, id: StreamId) -> (r: Option<&V>)
        ensures
            self@.contains_key(id) ==> r == Some(&self@[id]),
            !self@.contains_key(id) ==> r is None,
    {
        self.map.get(&id)
    }

    /// Drop the entry for `id`, handing it back.
    pub fn remove(&mut self, id: StreamId) -> (r: Option<V>)
        ensures
            final(self)@ == old(self)@.remove(id),
            old(self)@.contains_key(id) ==> r == Some(old(self)@[id]),
            !old(self)@.contains_key(id) ==> r is None,
    {
        self.map.remove(&id)
    }

    /// Number of registered streams.
    pub fn len(&self) -> (n: usize)
        ensures
            n == self@.len(),
    {
        self.map.len()
    }

    /// Empty the registry, handing back every entry it held.
    pub fn drain(&mut self) -> (all: HashMap<StreamId, V>)
        ensures
            all@ == old(self)@,
            final(self)@ == Map::<StreamId, V>::empty(),
    {
        let mut all = HashMap::new();
        std::mem::swap(&mut all, &mut self.map);
        all
    }
}

} // verus!
