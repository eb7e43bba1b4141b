//! A registry of bulkheads by the name of the resource that each one guards.
use crate::bulkhead::Bulkhead;
use vstd::hash_map::StringHashMap;
use vstd::prelude::*;

verus! {

/// A structure for tracking multiple bulkheads for different resources.
///
/// A name has one bulkhead at most. An entry stays until another bulkhead is
/// registered under its name.
pub struct BulkheadRegistry(StringHashMap<Bulkhead>);

/// A short name for [`BulkheadRegistry`].
pub type Bulkheads = BulkheadRegistry;

impl View for BulkheadRegistry {
    type V = Map<Seq<char>, Bulkhead>;

    closed spec fn view(&self) -> Map<Seq<char>, Bulkhead> {
        self.0@
    }
}

impl BulkheadRegistry {
    /// What [`BulkheadRegistry::get`] finds under a name.
    pub open spec fn lookup(self, resource: Seq<char>) -> Option<Bulkhead> {
        if self@.contains_key(resource) {
            Some(self@[resource])
        } else {
            None
        }
    }

    /// This registry is what [`BulkheadRegistry::register`] makes of `before`,
    /// called with `resource` and `bulkhead`.
    pub open spec fn extends(self, before: Self, resource: Seq<char>, bulkhead: Bulkhead) -> bool {
        self@ == before@.insert(resource, bulkhead)
    }

    /// Creates an empty registry.
    pub fn new() -> (registry: Self)
        ensures
            registry@ == Map::<Seq<char>, Bulkhead>::empty(),
    {
        Self(StringHashMap::new())
    }

    /// Adds a new bulkhead for the specified resource to the registry. A
    /// bulkhead that was registered for the resource before is dropped from
    /// the registry; whoever holds a clone of it goes on with that one.
    pub fn register(&mut self, resource: String, bulkhead: Bulkhead) -> (registry: &mut Self)
        ensures
            registry.extends(*old(self), resource@, bulkhead),
            *final(self) == *final(registry),
    {
        self.0.insert(resource, bulkhead);
        self
    }

    /// Retrieves the requested resource bulkhead from the registry, if one
    /// is registered under that name.
    pub fn get(&self, resource: &str) -> (found: Option<&Bulkhead>)
        ensures
            match found {
                Some(bulkhead) => self.lookup(resource@) == Some(*bulkhead),
                None => self.lookup(resource@).is_none(),
            },
    {
        self.0.get(resource)
    }

    /// A bulkhead that was registered under a name is the one that is found
    /// under that name, whatever the registry held before.
    pub proof fn lemma_registered_is_found(
        before: Self,
        after: Self,
        resource: Seq<char>,
        bulkhead: Bulkhead,
    )
        requires
            after.extends(before, resource, bulkhead),
        ensures
            after.lookup(resource) == Some(bulkhead),
    {
    }

    /// Registering a bulkhead under one name changes nothing under any other
    /// name.
    pub proof fn lemma_other_names_are_kept(
        before: Self,
        after: Self,
        resource: Seq<char>,
        bulkhead: Bulkhead,
        other: Seq<char>,
    )
        requires
            after.extends(before, resource, bulkhead),
            other != resource,
        ensures
            after.lookup(other) == before.lookup(other),
    {
    }

    /// Under a name that was never registered nothing is found: not in a new
    /// registry, and not after bulkheads were registered under other names.
    pub proof fn lemma_unregistered_is_absent(
        empty: Self,
        before: Self,
        after: Self,
        resource: Seq<char>,
        bulkhead: Bulkhead,
        unknown: Seq<char>,
    )
        requires
            empty@ == Map::<Seq<char>, Bulkhead>::empty(),
            after.extends(before, resource, bulkhead),
            before.lookup(unknown).is_none(),
            unknown != resource,
        ensures
            empty.lookup(unknown).is_none(),
            after.lookup(unknown).is_none(),
    {
    }

    /// Of two bulkheads that were registered under one name, one after the
    /// other, the second is found, and the registry is as if the first had
    /// never been registered.
    pub proof fn lemma_registering_again_replaces(
        before: Self,
        between: Self,
        after: Self,
        resource: Seq<char>,
        first: Bulkhead,
        second: Bulkhead,
    )
        requires
            between.extends(before, resource, first),
            after.extends(between, resource, second),
        ensures
            after.lookup(resource) == Some(second),
            after.extends(before, resource, second),
    {
        assert(before@.insert(resource, first).insert(resource, second) =~= before@.insert(
            resource,
            second,
        ));
    }
}

impl Default for BulkheadRegistry {
    /// An empty registry.
    fn default() -> (registry: Self)
        ensures
            registry@ == Map::<Seq<char>, Bulkhead>::empty(),
    {
        Self::new()
    }
}

} // verus!
