//! The durable substrate: a restart-surviving counter cell and a
//! restart-surviving map from id to encoded record bytes, both held in
//! stable memory through the `ic-stable-structures` crate.
//!
//! Everything in this module is trusted: the contracts state what the
//! crate's own source shows of `Cell` and `StableBTreeMap`, and the rest
//! of the library is verified against them. A failure of the substrate
//! itself (stable memory cannot grow) aborts the process, as an
//! environment failure rather than a domain error.

use vstd::prelude::*;
use ic_stable_structures::memory_manager::{MemoryId, MemoryManager};
use ic_stable_structures::memory_manager::VirtualMemory;
use ic_stable_structures::{Cell, DefaultMemoryImpl, StableBTreeMap};

verus! {

/// Handles to the stable memory: the counter cell, the record map, and
/// the base memory they live in, kept so the store can be reopened after
/// a restart.
#[verifier::external_body]
pub struct DurableStore {
    mem: DefaultMemoryImpl,
    counter: Cell<u64, VirtualMemory<DefaultMemoryImpl>>,
    records: StableBTreeMap<u64, Vec<u8>, VirtualMemory<DefaultMemoryImpl>>,
}

/// The value held by the durable counter cell.
pub uninterp spec fn store_counter(s: DurableStore) -> u64;

/// The contents of the durable record map: id to stored bytes.
pub uninterp spec fn store_records(s: DurableStore) -> Map<u64, Seq<u8>>;

impl DurableStore {
    /// Opens a store over the process's default stable memory, loading
    /// whatever it already holds: on untouched memory the counter takes
    /// its default 0 and the map starts empty, but after a restart of a
    /// durable substrate both come back with their stored contents — so
    /// nothing is claimed of them here. Relies on `MemoryManager::init`,
    /// `Cell::init` and `StableBTreeMap::init` of ic-stable-structures.
    #[verifier::external_body]
    pub fn open() -> DurableStore {
        let mem = DefaultMemoryImpl::default();
        let mgr = MemoryManager::init(mem.clone());
        let counter = Cell::init(mgr.get(MemoryId::new(0)), 0u64);
        let records = StableBTreeMap::init(mgr.get(MemoryId::new(1)));
        DurableStore { mem, counter, records }
    }

    /// Relies on `StableBTreeMap::keys` of ic-stable-structures: the
    /// iterator yields exactly the keys present in the map.
    #[verifier::external_body]
    pub fn records_keys(&self) -> (ks: Vec<u64>)
        ensures
            forall|i: int| 0 <= i < ks@.len() ==> store_records(*self).contains_key(ks@[i]),
            forall|id: u64| store_records(*self).contains_key(id) ==> ks@.contains(id),
    {
        self.records.keys().collect()
    }

    /// Reopens the same underlying memory, as a process restart does.
    /// Relies on `Cell::init` and `StableBTreeMap::init` of
    /// ic-stable-structures: on memory that already holds data they
    /// load the stored value and entries rather than starting afresh.
    #[verifier::external_body]
    pub fn restart(self) -> (s: DurableStore)
        ensures
            store_counter(s) == store_counter(self),
            store_records(s) == store_records(self),
    {
        let DurableStore { mem, counter, records } = self;
        drop(counter);
        drop(records);
        let mgr = MemoryManager::init(mem.clone());
        let counter = Cell::init(mgr.get(MemoryId::new(0)), 0u64);
        let records = StableBTreeMap::init(mgr.get(MemoryId::new(1)));
        DurableStore { mem, counter, records }
    }

    /// Relies on `Cell::get` of ic-stable-structures: returns the value
    /// the cell holds.
    #[verifier::external_body]
    pub fn counter_get(&self) -> (v: u64)
        ensures
            v == store_counter(*self),
    {
        *self.counter.get()
    }

    /// Relies on `Cell::set` of ic-stable-structures: writes the value
    /// durably; the record map is untouched. Aborts only if stable
    /// memory cannot be written (an environment failure).
    #[verifier::external_body]
    pub fn counter_set(&mut self, v: u64)
        ensures
            store_counter(*final(self)) == v,
            store_records(*final(self)) == store_records(*old(self)),
    {
        let _ = self.counter.set(v);
    }

    /// Relies on `StableBTreeMap::get` of ic-stable-structures: returns
    /// the value stored under the key, if any.
    #[verifier::external_body]
    pub fn records_get(&self, id: u64) -> (r: Option<Vec<u8>>)
        ensures
            match r {
                Some(b) => store_records(*self).contains_key(id) && b@ == store_records(*self)[id],
                None => !store_records(*self).contains_key(id),
            },
    {
        self.records.get(&id)
    }

    /// Relies on `StableBTreeMap::insert` of ic-stable-structures:
    /// stores the value under the key, replacing any previous one; the
    /// counter is untouched. Aborts only if stable memory cannot grow.
    #[verifier::external_body]
    pub fn records_insert(&mut self, id: u64, bytes: Vec<u8>)
        ensures
            store_records(*final(self)) == store_records(*old(self)).insert(id, bytes@),
            store_counter(*final(self)) == store_counter(*old(self)),
    {
        let _ = self.records.insert(id, bytes);
    }

    /// Relies on `StableBTreeMap::remove` of ic-stable-structures:
    /// removes and returns the value stored under the key, if any; the
    /// counter is untouched.
    #[verifier::external_body]
    pub fn records_remove(&mut self, id: u64) -> (r: Option<Vec<u8>>)
        ensures
            match r {
                Some(b) => store_records(*old(self)).contains_key(id) && b@ == store_records(
                    *old(self),
                )[id],
                None => !store_records(*old(self)).contains_key(id),
            },
            store_records(*final(self)) == store_records(*old(self)).remove(id),
            store_counter(*final(self)) == store_counter(*old(self)),
    {
        self.records.remove(&id)
    }
}

} // verus!
