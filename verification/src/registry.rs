//! The process registry: a store keyed by slot identifier that exclusively
//! owns the handle of each live child process.
//!
//! A slot holds at most one handle at a time. The handle recorded here is the
//! child's process id, which on Unix-like systems also names its process
//! group (the child is spawned as its own group leader). The surrounding
//! binary keeps this registry behind its own lock, so no two operations on it
//! interleave: an insert is never lost and a remove never double-returns.

use vstd::prelude::*;
use vstd::hash_map::HashMapWithView;

verus! {

broadcast use vstd::std_specs::hash::group_hash_axioms;

/// What removing a slot's handle yields: the handle if one was registered,
/// and the registry contents afterwards. Removal of an absent slot takes
/// nothing and changes nothing.
pub open spec fn spec_take(m: Map<usize, u32>, slot: usize) -> (Option<u32>, Map<usize, u32>) {
    if m.contains_key(slot) {
        (Option::Some(m[slot]), m.remove(slot))
    } else {
        (Option::None, m)
    }
}

/// The registry of live child-process handles, keyed by slot identifier.
pub struct Registry {
    handles: HashMapWithView<usize, u32>,
}

impl View for Registry {
    type V = Map<usize, u32>;

    closed spec fn view(&self) -> Map<usize, u32> {
        self.handles@
    }
}

impl Registry {
    /// Creates an empty registry: no slot is tracking a process.
    pub fn new() -> (r: Self)
        ensures
            r@ == Map::<usize, u32>::empty(),
    {
        Registry { handles: HashMapWithView::new() }
    }

    /// Registers `pid` as the live handle for `slot`, replacing any prior
    /// entry. Callers are responsible for having taken a prior handle out
    /// first; the lifecycle controller enforces that before registering.
    pub fn insert(&mut self, slot: usize, pid: u32)
        ensures
            final(self)@ == old(self)@.insert(slot, pid),
    {
        self.handles.insert(slot, pid);
    }

    /// Atomically takes the handle registered for `slot` out of the registry,
    /// if any; an absent slot yields nothing and leaves the registry
    /// unchanged.
    pub fn remove(&mut self, slot: usize) -> (r: Option<u32>)
        ensures
            ({
                let (taken, rest) = spec_take(old(self)@, slot);
                r == taken && final(self)@ == rest
            }),
    {
        self.handles.remove(&slot)
    }

    /// Reports whether `slot` currently tracks a live process handle.
    pub fn contains(&self, slot: usize) -> (r: bool)
        ensures
            r == self@.contains_key(slot),
    {
        self.handles.contains_key(&slot)
    }
}

} // verus!
