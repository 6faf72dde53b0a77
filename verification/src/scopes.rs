//! Which index scope each scoped IR node owns.
//!
//! Components are identified by a unique component ID; every other node
//! that opens a scope (a core module type, a component type of kind
//! component or instance) is identified by a node key that stays the same
//! for the node's lifetime. The registry maps both to the [`ScopeId`] the
//! node owns, and remembers for a node what kind of owner registered it, so
//! that another node sharing the key is never taken for the owner.

use vstd::prelude::*;
use std::collections::HashMap;
use crate::idx_spaces::ScopeId;

verus! {

broadcast use vstd::std_specs::hash::group_hash_axioms;

/// A globally unique identity of a component of one IR tree.
#[derive(Clone, Copy, Debug, PartialEq, Eq, Hash, Structural)]
pub struct CompUniqueId(pub u32);

/// The identity of a scoped IR node other than a component.
pub type NodeKey = usize;

/// Registered scope of a node: the scope and the kind of node that owns it.
#[derive(Clone, Copy, Debug, PartialEq, Eq, Structural)]
pub struct ScopeEntry {
    pub space: ScopeId,
    pub kind: ScopeOwnerKind,
}

/// The kinds of IR node that own a scope.
#[derive(Clone, Copy, Debug, PartialEq, Eq, Structural)]
pub enum ScopeOwnerKind {
    /// A `(component ...)`
    Component,
    /// A core `(core type (module ...))`
    CoreTypeModule,
    /// A `(component type (component ...))`
    ComponentTypeComponent,
    /// A `(component type (instance ...))`
    ComponentTypeInstance,
    /// A node that owns no scope.
    Unregistered,
}

/// The kind of scope owner a node is.
pub trait GetScopeKind {
    spec fn spec_scope_kind(&self) -> ScopeOwnerKind;

    fn scope_kind(&self) -> (r: ScopeOwnerKind)
        ensures
            r == self.spec_scope_kind(),
    ;
}

/// The registry of the scopes owned by IR nodes.
#[derive(Debug)]
pub struct IndexScopeRegistry {
    pub(crate) node_scopes: HashMap<NodeKey, ScopeEntry>,
    /// Keyed by the number of a [`CompUniqueId`].
    pub(crate) comp_scopes: HashMap<u32, ScopeId>,
    /// The number the next allocated [`CompUniqueId`] gets.
    pub(crate) next_uid: u32,
}

impl IndexScopeRegistry {
    /// The registered nodes.
    pub closed spec fn node_map(self) -> Map<NodeKey, ScopeEntry> {
        self.node_scopes@
    }

    /// The registered components, by the number of their unique ID.
    pub closed spec fn comp_map(self) -> Map<u32, ScopeId> {
        self.comp_scopes@
    }

    /// The number the next allocated component ID gets.
    pub closed spec fn next_uid_val(self) -> u32 {
        self.next_uid
    }

    /// An empty registry.
    pub fn new() -> (r: Self)
        ensures
            r.node_map() == Map::<NodeKey, ScopeEntry>::empty(),
            r.comp_map() == Map::<u32, ScopeId>::empty(),
            r.next_uid_val() == 0,
    {
        IndexScopeRegistry { node_scopes: HashMap::new(), comp_scopes: HashMap::new(), next_uid: 0 }
    }

    /// Records that the node with key `key` owns scope `space`.
    pub fn register<T: GetScopeKind>(&mut self, key: NodeKey, node: &T, space: ScopeId)
        requires
            node.spec_scope_kind() != ScopeOwnerKind::Unregistered,
            !old(self).node_map().contains_key(key),
        ensures
            final(self).node_map() == old(self).node_map().insert(
                key,
                ScopeEntry { space, kind: node.spec_scope_kind() },
            ),
            final(self).comp_map() == old(self).comp_map(),
            final(self).next_uid_val() == old(self).next_uid_val(),
    {
        let kind = node.scope_kind();
        self.node_scopes.insert(key, ScopeEntry { space, kind });
    }

    /// The scope owned by the node with key `key`, if that node registered
    /// it as the same kind of owner.
    pub fn scope_entry<T: GetScopeKind>(&self, key: NodeKey, node: &T) -> (r: Option<ScopeEntry>)
        ensures
            r == (if self.node_map().contains_key(key) && self.node_map()[key].kind
                == node.spec_scope_kind() {
                Some(self.node_map()[key])
            } else {
                None
            }),
    {
        if let Some(entry) = self.node_scopes.get(&key) {
            if entry.kind == node.scope_kind() {
                return Some(*entry);
            }
        }
        None
    }

    /// Records that component `comp_id` owns scope `space`.
    pub fn register_comp(&mut self, comp_id: CompUniqueId, space: ScopeId)
        ensures
            final(self).comp_map() == old(self).comp_map().insert(comp_id.0, space),
            final(self).node_map() == old(self).node_map(),
            final(self).next_uid_val() == old(self).next_uid_val(),
    {
        self.comp_scopes.insert(comp_id.0, space);
    }

    /// The scope owned by component `comp_id`, if registered.
    pub fn scope_of_comp(&self, comp_id: CompUniqueId) -> (r: Option<ScopeId>)
        ensures
            r == (if self.comp_map().contains_key(comp_id.0) {
                Some(self.comp_map()[comp_id.0])
            } else {
                None
            }),
    {
        match self.comp_scopes.get(&comp_id.0) {
            Some(s) => Some(*s),
            None => None,
        }
    }

    /// Allocates the next unique component ID.
    pub fn alloc_uid(&mut self) -> (r: CompUniqueId)
        requires
            old(self).next_uid_val() < u32::MAX,
        ensures
            r.0 == old(self).next_uid_val(),
            final(self).next_uid_val() == old(self).next_uid_val() + 1,
            final(self).node_map() == old(self).node_map(),
            final(self).comp_map() == old(self).comp_map(),
    {
        let uid = CompUniqueId(self.next_uid);
        self.next_uid += 1;
        uid
    }

    /// Marks the component IDs below `next` as taken: the next allocated
    /// ID is at least `next`.
    pub fn reserve_uids(&mut self, next: u32)
        ensures
            final(self).next_uid_val() == (if old(self).next_uid_val() < next {
                next
            } else {
                old(self).next_uid_val()
            }),
            final(self).node_map() == old(self).node_map(),
            final(self).comp_map() == old(self).comp_map(),
    {
        if self.next_uid < next {
            self.next_uid = next;
        }
    }
}

/// Component IDs allocated one after another from one registry are all
/// different.
pub proof fn lemma_alloc_uid_fresh(first: u32, second: u32, before: IndexScopeRegistry, between: IndexScopeRegistry)
    requires
        first == before.next_uid_val(),
        between.next_uid_val() >= before.next_uid_val() + 1,
        second == between.next_uid_val(),
    ensures
        first != second,
{
}

} // verus!
