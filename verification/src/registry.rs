//! The tenant client registry: at most one client handle per tenant
//! identity, replaced on re-link and dropped on unlink.

use vstd::prelude::*;
use vstd::hash_map::StringHashMap;

verus! {

broadcast use vstd::hash_map::group_hash_map_axioms;

/// Maps tenant identities to client handles. The map is owned by whoever
/// holds the registry; sharing it between readers and a writer is the
/// holder's business. A registry starts with no tenant and gains at most one
/// at a time, so it never holds more than finitely many: each step says so,
/// and the count of tenants is a number at every step.
#[verifier::reject_recursive_types(H)]
pub struct Registry<H> {
    clients: StringHashMap<H>,
}

impl<H> View for Registry<H> {
    type V = Map<Seq<char>, H>;

    closed spec fn view(&self) -> Map<Seq<char>, H> {
        self.clients@
    }
}

impl<H> Registry<H> {
    /// The registry that knows no tenant.
    pub fn new() -> (registry: Registry<H>)
        ensures
            registry@ == Map::<Seq<char>, H>::empty(),
            registry@.dom().finite(),
    {
        Registry { clients: StringHashMap::new() }
    }

    /// Registers `handle` under `id`. A handle registered under `id` before
    /// is dropped; no other tenant is touched.
    pub fn put(&mut self, id: &str, handle: H)
        ensures
            final(self)@ == old(self)@.insert(id@, handle),
            old(self)@.dom().finite() ==> final(self)@.dom().finite(),
    {
        self.clients.insert(id.to_owned(), handle);
    }

    /// The handle registered under `id`, if there is one.
    pub fn get(&self, id: &str) -> (handle: Option<&H>)
        ensures
            match handle {
                Some(h) => self@.contains_key(id@) && *h == self@[id@],
                None => !self@.contains_key(id@),
            },
    {
        self.clients.get(id)
    }

    /// Whether a handle is registered under `id`.
    pub fn contains(&self, id: &str) -> (present: bool)
        ensures
            present == self@.contains_key(id@),
    {
        self.clients.contains_key(id)
    }

    /// Drops the handle registered under `id`. An unknown `id` changes
    /// nothing; no other tenant is touched.
    pub fn remove(&mut self, id: &str)
        ensures
            final(self)@ == old(self)@.remove(id@),
            old(self)@.dom().finite() ==> final(self)@.dom().finite(),
    {
        self.clients.remove(id);
    }

    /// Drops every handle.
    pub fn clear(&mut self)
        ensures
            final(self)@ == Map::<Seq<char>, H>::empty(),
            final(self)@.dom().finite(),
    {
        self.clients.clear();
    }

    /// The number of tenants with a registered handle.
    pub fn len(&self) -> (count: usize)
        ensures
            count == self@.len(),
    {
        self.clients.len()
    }
}

} // verus!
