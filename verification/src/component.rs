//! The intermediate representation of a WebAssembly component.
//!
//! A component keeps its items in one vector per kind, the order of the
//! sections it was read from, the names its name section gives, and the
//! index spaces of its own scope: for each index space, which assumed ID
//! each item was given. Every component of a tree (the root and each
//! nested component) owns the index spaces of its own scope, so that a
//! reference of any component can be resolved on that component alone.

use vstd::prelude::*;
use crate::idx_spaces::{IndexStore, IndexScope, ScopeId, Space, SpaceSubtype, Entry, records};
use crate::items::{
    ComponentImport, ComponentExport, Instance, CoreType, ComponentType, ComponentInstance,
    ComponentAlias, CanonicalFunction, ComponentStartFunction, CustomSection, Module,
};
use crate::names::{Names, insert_names};
use crate::nodes::{Aliases, Canons, ComponentTypes};
use crate::payload::{NameMapKind, NameSubsection};
use crate::scopes::{CompUniqueId, IndexScopeRegistry};
use crate::section::ComponentSection;

verus! {

/// The names a component name section gives, per kind of item.
#[derive(Debug)]
pub struct ComponentNames {
    pub core_funcs: Names,
    pub core_globals: Names,
    pub core_tables: Names,
    pub core_modules: Names,
    pub core_instances: Names,
    pub core_types: Names,
    pub types: Names,
    pub instances: Names,
    pub components: Names,
    pub funcs: Names,
    pub values: Names,
    pub core_memories: Names,
    pub core_tags: Names,
}

impl ComponentNames {
    /// The names of the items of kind `kind`.
    pub open spec fn names_of(self, kind: NameMapKind) -> Map<u32, Seq<char>> {
        match kind {
            NameMapKind::CoreFuncs => self.core_funcs.name_map(),
            NameMapKind::CoreGlobals => self.core_globals.name_map(),
            NameMapKind::CoreTables => self.core_tables.name_map(),
            NameMapKind::CoreModules => self.core_modules.name_map(),
            NameMapKind::CoreInstances => self.core_instances.name_map(),
            NameMapKind::CoreTypes => self.core_types.name_map(),
            NameMapKind::Types => self.types.name_map(),
            NameMapKind::Instances => self.instances.name_map(),
            NameMapKind::Components => self.components.name_map(),
            NameMapKind::Funcs => self.funcs.name_map(),
            NameMapKind::Values => self.values.name_map(),
            NameMapKind::CoreMemories => self.core_memories.name_map(),
            NameMapKind::CoreTags => self.core_tags.name_map(),
        }
    }

    /// No names.
    pub fn new() -> (r: Self)
        ensures
            forall|k: NameMapKind| #[trigger] r.names_of(k) == Map::<u32, Seq<char>>::empty(),
    {
        ComponentNames {
            core_funcs: Names::new(),
            core_globals: Names::new(),
            core_tables: Names::new(),
            core_modules: Names::new(),
            core_instances: Names::new(),
            core_types: Names::new(),
            types: Names::new(),
            instances: Names::new(),
            components: Names::new(),
            funcs: Names::new(),
            values: Names::new(),
            core_memories: Names::new(),
            core_tags: Names::new(),
        }
    }

    /// The names of the items of kind `kind`.
    pub fn get(&self, kind: NameMapKind) -> (r: &Names)
        ensures
            r.name_map() == self.names_of(kind),
    {
        match kind {
            NameMapKind::CoreFuncs => &self.core_funcs,
            NameMapKind::CoreGlobals => &self.core_globals,
            NameMapKind::CoreTables => &self.core_tables,
            NameMapKind::CoreModules => &self.core_modules,
            NameMapKind::CoreInstances => &self.core_instances,
            NameMapKind::CoreTypes => &self.core_types,
            NameMapKind::Types => &self.types,
            NameMapKind::Instances => &self.instances,
            NameMapKind::Components => &self.components,
            NameMapKind::Funcs => &self.funcs,
            NameMapKind::Values => &self.values,
            NameMapKind::CoreMemories => &self.core_memories,
            NameMapKind::CoreTags => &self.core_tags,
        }
    }

    /// Names the items of kind `kind` by `names`, in order.
    pub fn add_all(&mut self, kind: NameMapKind, names: &[(u32, String)])
        ensures
            final(self).names_of(kind) == insert_names(old(self).names_of(kind), names@),
            forall|k: NameMapKind| k != kind ==> #[trigger] final(self).names_of(k) == old(self).names_of(k),
    {
        match kind {
            NameMapKind::CoreFuncs => self.core_funcs.add_all(names),
            NameMapKind::CoreGlobals => self.core_globals.add_all(names),
            NameMapKind::CoreTables => self.core_tables.add_all(names),
            NameMapKind::CoreModules => self.core_modules.add_all(names),
            NameMapKind::CoreInstances => self.core_instances.add_all(names),
            NameMapKind::CoreTypes => self.core_types.add_all(names),
            NameMapKind::Types => self.types.add_all(names),
            NameMapKind::Instances => self.instances.add_all(names),
            NameMapKind::Components => self.components.add_all(names),
            NameMapKind::Funcs => self.funcs.add_all(names),
            NameMapKind::Values => self.values.add_all(names),
            NameMapKind::CoreMemories => self.core_memories.add_all(names),
            NameMapKind::CoreTags => self.core_tags.add_all(names),
        }
    }
}

/// The names of kind `kind` that the name subsections `subs` give, read in
/// order (a later name of an index replaces an earlier one).
pub open spec fn names_from(subs: Seq<NameSubsection>, kind: NameMapKind) -> Map<u32, Seq<char>>
    decreases subs.len(),
{
    if subs.len() == 0 {
        Map::empty()
    } else {
        let before = names_from(subs.drop_last(), kind);
        match subs.last() {
            NameSubsection::Names(k, names) => if k == kind {
                insert_names(before, names@)
            } else {
                before
            },
            _ => before,
        }
    }
}

/// The component's own name that the name subsections `subs` give: the
/// last one.
pub open spec fn component_name_from(subs: Seq<NameSubsection>) -> Option<Seq<char>>
    decreases subs.len(),
{
    if subs.len() == 0 {
        None
    } else {
        match subs.last() {
            NameSubsection::Component(name) => Some(name@),
            _ => component_name_from(subs.drop_last()),
        }
    }
}

/// Intermediate representation of a WebAssembly component.
#[derive(Debug)]
pub struct Component {
    /// An identity of this component that is unique within its tree.
    pub uid: CompUniqueId,
    /// Nested components.
    pub components: Vec<Component>,
    /// Core modules.
    pub modules: Vec<Module>,
    /// Component types.
    pub component_types: ComponentTypes,
    /// Component instances.
    pub component_instance: Vec<ComponentInstance>,
    /// Canonical functions.
    pub canons: Canons,
    /// Aliases.
    pub alias: Aliases,
    /// Imports.
    pub imports: Vec<ComponentImport>,
    /// Exports.
    pub exports: Vec<ComponentExport>,
    /// Core types.
    pub core_types: Vec<CoreType>,
    /// Core instances.
    pub instances: Vec<Instance>,
    /// The scope of this component's own index spaces in `index_store`.
    pub space_id: ScopeId,
    /// The scopes owned by the nodes of this component.
    pub scope_registry: IndexScopeRegistry,
    /// The index scopes of this component.
    pub index_store: IndexStore,
    /// Custom sections other than the component name section.
    pub custom_sections: Vec<CustomSection>,
    /// Start functions.
    pub start_section: Vec<ComponentStartFunction>,
    /// The sections of the component, in binary order: per section, the
    /// number of items it holds and its kind.
    pub sections: Vec<(u32, ComponentSection)>,
    pub num_sections: usize,
    /// The component's own name, from its name section.
    pub component_name: Option<String>,
    /// The names its name section gives to its items.
    pub names: ComponentNames,
}

/// The number of items of the vector `sub` of a component that holds the
/// given numbers of items, for index space `sp`: the main vector of a
/// space is the one of the section that defines its items (spaces that no
/// section defines have none).
pub open spec fn vec_len(
    sp: Space,
    sub: SpaceSubtype,
    lens: VecLens,
) -> nat {
    match sub {
        SpaceSubtype::Import => lens.imports,
        SpaceSubtype::Export => lens.exports,
        SpaceSubtype::Alias => lens.alias,
        SpaceSubtype::Main => match sp {
            Space::Comp => lens.components,
            Space::CompType => lens.component_types,
            Space::CompInst => lens.component_instance,
            Space::CoreInst => lens.instances,
            Space::CoreModule => lens.modules,
            Space::CoreType => lens.core_types,
            Space::CompFunc | Space::CoreFunc => lens.canons,
            _ => 0,
        },
    }
}

/// The numbers of items of the item vectors of a component.
pub struct VecLens {
    pub imports: nat,
    pub exports: nat,
    pub alias: nat,
    pub components: nat,
    pub component_types: nat,
    pub component_instance: nat,
    pub instances: nat,
    pub modules: nat,
    pub core_types: nat,
    pub canons: nat,
}

/// Every position a scope gives IDs to lies inside its item vector, and
/// no lookup has been cached.
pub open spec fn positions_within(scope: IndexScope, lens: VecLens) -> bool {
    &&& forall|sp: Space, sub: SpaceSubtype, k: usize| sp != Space::NA
        && #[trigger] scope.space(sp).id_map(sub).contains_key(k) ==> k < vec_len(sp, sub, lens)
    &&& forall|sp: Space| sp != Space::NA ==> #[trigger] scope.space(sp).cache() == Map::<usize, (SpaceSubtype, usize, Option<usize>)>::empty()
}

/// What a component is made of: its items, the order of its sections, the
/// name subsections it read, its nested components, and the log of the
/// assumed IDs its items were given, in the order they were given.
pub struct Built {
    pub sections: Seq<(u32, ComponentSection)>,
    pub modules: Seq<Module>,
    pub core_types: Seq<CoreType>,
    pub component_types: Seq<ComponentType>,
    pub component_instance: Seq<ComponentInstance>,
    pub canons: Seq<CanonicalFunction>,
    pub alias: Seq<ComponentAlias>,
    pub imports: Seq<ComponentImport>,
    pub exports: Seq<ComponentExport>,
    pub instances: Seq<Instance>,
    pub components: Seq<Built>,
    pub start_section: Seq<ComponentStartFunction>,
    pub custom_sections: Seq<CustomSection>,
    pub name_subsections: Seq<NameSubsection>,
    pub entries: Seq<Entry>,
}

impl Built {
    /// A component with nothing in it.
    pub open spec fn empty() -> Built {
        Built {
            sections: Seq::empty(),
            modules: Seq::empty(),
            core_types: Seq::empty(),
            component_types: Seq::empty(),
            component_instance: Seq::empty(),
            canons: Seq::empty(),
            alias: Seq::empty(),
            imports: Seq::empty(),
            exports: Seq::empty(),
            instances: Seq::empty(),
            components: Seq::empty(),
            start_section: Seq::empty(),
            custom_sections: Seq::empty(),
            name_subsections: Seq::empty(),
            entries: Seq::empty(),
        }
    }

    /// The numbers of items of its item vectors.
    pub open spec fn lens(self) -> VecLens {
        VecLens {
            imports: self.imports.len(),
            exports: self.exports.len(),
            alias: self.alias.len(),
            components: self.components.len(),
            component_types: self.component_types.len(),
            component_instance: self.component_instance.len(),
            instances: self.instances.len(),
            modules: self.modules.len(),
            core_types: self.core_types.len(),
            canons: self.canons.len(),
        }
    }
}

impl Component {
    /// The scope of this component's own index spaces.
    pub open spec fn scope(self) -> IndexScope {
        self.index_store.scope_map()[self.space_id]
    }

    /// The names of kind `kind` this component's name section gives.
    pub open spec fn names_of(self, kind: NameMapKind) -> Map<u32, Seq<char>> {
        self.names.names_of(kind)
    }

    /// The component's own name, from its name section.
    pub open spec fn own_name(self) -> Option<Seq<char>> {
        match self.component_name {
            Some(n) => Some(n@),
            None => None,
        }
    }

    /// The unique identity of this component within its tree.
    pub open spec fn unique_id(self) -> u32 {
        self.uid.0
    }

    /// The numbers of items of its item vectors.
    pub open spec fn lens(self) -> VecLens {
        VecLens {
            imports: self.imports@.len(),
            exports: self.exports@.len(),
            alias: self.alias.items@.len(),
            components: self.components@.len(),
            component_types: self.component_types.items@.len(),
            component_instance: self.component_instance@.len(),
            instances: self.instances@.len(),
            modules: self.modules@.len(),
            core_types: self.core_types@.len(),
            canons: self.canons.items@.len(),
        }
    }

    /// Well-formedness of the component's own bookkeeping: its scope is in
    /// its store, the store is well formed, the section count matches the
    /// section list, and the scope gives IDs only to positions inside the
    /// item vectors.
    pub open spec fn wf(self) -> bool {
        &&& self.index_store.wf()
        &&& self.index_store.scope_map().contains_key(self.space_id)
        &&& self.num_sections == self.sections@.len()
        &&& positions_within(self.scope(), self.lens())
    }

    /// The component is what `b` describes: the same items and sections,
    /// names that `b`'s name subsections give, nested components that are
    /// what `b`'s nested components describe, and a scope whose IDs were
    /// given, from a fresh scope, in the order of `b`'s log.
    pub open spec fn realizes(self, b: Built) -> bool
        decreases b, 1int,
    {
        &&& self.wf()
        &&& self.sections@ == b.sections
        &&& self.modules@ == b.modules
        &&& self.core_types@ == b.core_types
        &&& self.component_types.items@ == b.component_types
        &&& self.component_instance@ == b.component_instance
        &&& self.canons.items@ == b.canons
        &&& self.alias.items@ == b.alias
        &&& self.imports@ == b.imports
        &&& self.exports@ == b.exports
        &&& self.instances@ == b.instances
        &&& self.start_section@ == b.start_section
        &&& self.custom_sections@ == b.custom_sections
        &&& forall|k: NameMapKind| #[trigger] self.names_of(k) == names_from(b.name_subsections, k)
        &&& self.own_name() == component_name_from(b.name_subsections)
        &&& exists|start: IndexScope| #[trigger] start.is_fresh_scope(self.scope().id)
            && records(start, self.scope(), b.entries)
        &&& self.components@.len() == b.components.len()
        &&& self.nested_realize(b)
    }

    /// Each nested component is what the corresponding nested component of
    /// `b` describes.
    pub open spec fn nested_realize(self, b: Built) -> bool
        decreases b, 0int,
    {
        forall|i: int| 0 <= i < b.components.len() && i < self.components@.len()
            ==> self.components@[i].realizes(#[trigger] b.components[i])
    }
}


/// Nested components realized stay realized when neither the nested
/// components nor what describes them change.
pub proof fn lemma_nested_same(c1: Component, c2: Component, b1: Built, b2: Built)
    requires
        c1.nested_realize(b1),
        c1.components@ == c2.components@,
        b1.components == b2.components,
    ensures
        c2.nested_realize(b2),
{

    assert forall|i: int| 0 <= i < b2.components.len() && i < c2.components@.len()
        implies c2.components@[i].realizes(#[trigger] b2.components[i]) by {
        assert(c2.components@[i] == c1.components@[i]);
        assert(b2.components[i] == b1.components[i]);
        assert(c1.components@[i].realizes(b1.components[i]));
    }
}


/// Nested components realized stay realized when one more nested component
/// that is realized is added.
pub proof fn lemma_nested_push(c1: Component, c2: Component, b1: Built, b2: Built, sub: Component, sb: Built)
    requires
        c1.nested_realize(b1),
        c1.components@.len() == b1.components.len(),
        c2.components@ == c1.components@.push(sub),
        b2.components == b1.components.push(sb),
        sub.realizes(sb),
    ensures
        c2.nested_realize(b2),
{

    assert forall|i: int| 0 <= i < b2.components.len() && i < c2.components@.len()
        implies c2.components@[i].realizes(#[trigger] b2.components[i]) by {
        if i < b1.components.len() {
            assert(c2.components@[i] == c1.components@[i]);
            assert(b2.components[i] == b1.components[i]);
            assert(c1.components@[i].realizes(b1.components[i]));
        } else {
            assert(c2.components@[i] == sub);
            assert(b2.components[i] == sb);
        }
    }
}


/// The identities of component `c` and of all the components nested in
/// it.
pub open spec fn tree_uids(c: Component) -> Set<u32>
    decreases c,
{
    set![c.uid.0].union(comps_uids(c.components@))
}

/// The identities of the components `cs` and of all the components nested
/// in them.
pub open spec fn comps_uids(cs: Seq<Component>) -> Set<u32>
    decreases cs,
{
    if cs.len() == 0 {
        Set::empty()
    } else {
        comps_uids(cs.drop_last()).union(tree_uids(cs.last()))
    }
}

/// No two components of the tree of `c` share an identity.
pub open spec fn uids_distinct(c: Component) -> bool
    decreases c,
{
    &&& !comps_uids(c.components@).contains(c.uid.0)
    &&& forall|i: int, j: int|
        #![trigger c.components@[i], c.components@[j]]
        0 <= i < j < c.components@.len() ==> tree_uids(c.components@[i]).disjoint(tree_uids(c.components@[j]))
    &&& forall|i: int| 0 <= i < c.components@.len() ==> uids_distinct(#[trigger] c.components@[i])
}

/// The identities of components one more component joins.
pub proof fn lemma_comps_uids_push(cs: Seq<Component>, x: Component)
    ensures
        comps_uids(cs.push(x)) == comps_uids(cs).union(tree_uids(x)),
{
    assert(cs.push(x).drop_last() =~= cs);
}

/// The identities of the tree of each of the components `cs` are among
/// theirs.
pub proof fn lemma_comps_uids_member(cs: Seq<Component>, i: int)
    requires
        0 <= i < cs.len(),
    ensures
        tree_uids(cs[i]).subset_of(comps_uids(cs)),
    decreases cs.len(),
{
    if i < cs.len() - 1 {
        lemma_comps_uids_member(cs.drop_last(), i);
        assert(cs.drop_last()[i] == cs[i]);
    }
}


/// The components of the tree of `c`, added to `m` by their identity in
/// the order of a walk that visits a component before the components
/// nested in it: a later component with the same identity replaces an
/// earlier one.
pub open spec fn walk_tree<'a>(m: Map<u32, &'a Component>, c: &'a Component) -> Map<u32, &'a Component>
    decreases *c,
{
    walk_comps(m.insert(c.uid.0, c), c.components@)
}

/// The components of the trees of `cs`, in order, added to `m` as
/// [`walk_tree`] adds them.
pub open spec fn walk_comps<'a>(m: Map<u32, &'a Component>, cs: Seq<Component>) -> Map<u32, &'a Component>
    decreases cs,
{
    if cs.len() == 0 {
        m
    } else {
        walk_tree(walk_comps(m, cs.drop_last()), &cs.last())
    }
}

/// The components of one tree, by their identity.
pub struct ComponentStore<'a> {
    pub(crate) components: std::collections::HashMap<u32, &'a Component>,
}

impl<'a> ComponentStore<'a> {
    /// The components held, by the number of their identity.
    pub closed spec fn comps(self) -> Map<u32, &'a Component> {
        self.components@
    }

    /// The component with identity `id`.
    pub fn get(&self, id: &CompUniqueId) -> (r: &'a Component)
        requires
            self.comps().contains_key(id.0),
        ensures
            r == self.comps()[id.0],
    {
        *self.components.get(&id.0).unwrap()
    }
}

/// Adds the components of the tree of `comp` to `map`, a component before
/// the components nested in it.
fn walk_into<'a>(comp: &'a Component, map: &mut std::collections::HashMap<u32, &'a Component>)
    ensures
        final(map)@ == walk_tree(old(map)@, comp),
    decreases *comp,
{
    map.insert(comp.uid.0, comp);
    let ghost start = map@;
    let cs = &comp.components;
    for i in 0..cs.len()
        invariant
            cs@ == comp.components@,
            map@ == walk_comps(start, cs@.take(i as int)),
    {
        proof {
            assert(cs@.take(i + 1).drop_last() =~= cs@.take(i as int));
            assert(cs@.take(i + 1).last() == cs@[i as int]);
        }
        walk_into(&cs[i], map);
    }
    proof {
        assert(cs@.take(cs@.len() as int) =~= cs@);
    }
}

/// The components of the tree of `root`, by their identity.
pub fn build_component_store<'a>(root: &'a Component) -> (r: ComponentStore<'a>)
    ensures
        r.comps() == walk_tree(Map::empty(), root),
{
    let mut map = std::collections::HashMap::new();
    walk_into(root, &mut map);
    ComponentStore { components: map }
}


/// Every key of `m` is the identity of the component it maps to.
pub open spec fn keyed_by_uid(m: Map<u32, &Component>) -> bool {
    forall|k: u32| #[trigger] m.contains_key(k) ==> m[k].uid.0 == k
}

/// Walking a tree adds exactly its identities as keys, and keeps every key
/// the identity of the component it maps to.
pub proof fn lemma_walk_tree<'a>(m: Map<u32, &'a Component>, c: &'a Component)
    ensures
        walk_tree(m, c).dom() == m.dom().union(tree_uids(*c)),
        keyed_by_uid(m) ==> keyed_by_uid(walk_tree(m, c)),
    decreases *c,
{
    lemma_walk_comps(m.insert(c.uid.0, c), c.components@);
    assert(m.insert(c.uid.0, c).dom().union(comps_uids(c.components@)) =~= m.dom().union(tree_uids(*c)));
}

/// Walking trees adds exactly their identities as keys, and keeps every
/// key the identity of the component it maps to.
pub proof fn lemma_walk_comps<'a>(m: Map<u32, &'a Component>, cs: Seq<Component>)
    ensures
        walk_comps(m, cs).dom() == m.dom().union(comps_uids(cs)),
        keyed_by_uid(m) ==> keyed_by_uid(walk_comps(m, cs)),
    decreases cs,
{
    if cs.len() == 0 {
        assert(m.dom().union(Set::<u32>::empty()) =~= m.dom());
    } else {
        lemma_walk_comps(m, cs.drop_last());
        lemma_walk_tree(walk_comps(m, cs.drop_last()), &cs.last());
        assert(m.dom().union(comps_uids(cs.drop_last())).union(tree_uids(cs.last())) =~= m.dom().union(comps_uids(cs)));
    }
}

/// Walking a tree that does not hold identity `k` leaves what `k` maps to.
proof fn lemma_walk_tree_keeps<'a>(m: Map<u32, &'a Component>, c: &'a Component, k: u32)
    requires
        !tree_uids(*c).contains(k),
    ensures
        walk_tree(m, c).contains_key(k) == m.contains_key(k),
        m.contains_key(k) ==> walk_tree(m, c)[k] == m[k],
    decreases *c,
{
    lemma_walk_comps_keeps(m.insert(c.uid.0, c), c.components@, k);
}

/// Walking trees that do not hold identity `k` leaves what `k` maps to.
proof fn lemma_walk_comps_keeps<'a>(m: Map<u32, &'a Component>, cs: Seq<Component>, k: u32)
    requires
        !comps_uids(cs).contains(k),
    ensures
        walk_comps(m, cs).contains_key(k) == m.contains_key(k),
        m.contains_key(k) ==> walk_comps(m, cs)[k] == m[k],
    decreases cs,
{
    if cs.len() > 0 {
        lemma_walk_comps_keeps(m, cs.drop_last(), k);
        lemma_walk_tree_keeps(walk_comps(m, cs.drop_last()), &cs.last(), k);
    }
}

/// Walking the `j`-th of trees that share no identity leaves the root of
/// that tree under its identity.
proof fn lemma_walk_comps_finds<'a>(m: Map<u32, &'a Component>, cs: Seq<Component>, j: int)
    requires
        0 <= j < cs.len(),
        uids_distinct(cs[j]),
        forall|l: int| j < l < cs.len() ==> #[trigger] tree_uids(cs[j]).disjoint(tree_uids(cs[l])),
    ensures
        walk_comps(m, cs).contains_key(cs[j].uid.0),
        walk_comps(m, cs)[cs[j].uid.0] == cs[j],
    decreases cs.len(),
{
    let last = cs.len() - 1;
    let k = cs[j].uid.0;
    let w = walk_comps(m, cs.drop_last());
    assert(walk_comps(m, cs) == walk_tree(w, &cs.last()));
    if j == last {
        let c = cs[j];
        let m1 = w.insert(k, &cs.last());
        assert(walk_tree(w, &cs.last()) == walk_comps(m1, c.components@));
        lemma_walk_comps_keeps(m1, c.components@, k);
    } else {
        let d = cs.drop_last();
        assert(d[j] == cs[j]);
        assert forall|l: int| j < l < d.len() implies #[trigger] tree_uids(d[j]).disjoint(tree_uids(d[l])) by {
            assert(d[l] == cs[l]);
        }
        assert(tree_uids(cs[j]).contains(k));
        assert(tree_uids(cs[j]).disjoint(tree_uids(cs[last])));
        lemma_walk_comps_finds(m, d, j);
        lemma_walk_tree_keeps(w, &cs.last(), k);
    }
}

/// The store of a tree holds exactly the identities of the tree, each
/// under the identity of the component stored; when no two components of
/// the tree share an identity, the root and each component nested directly
/// in it are found under their own.
pub proof fn law_store_of_tree(root: Component)
    ensures
        walk_tree(Map::empty(), &root).dom() == tree_uids(root),
        keyed_by_uid(walk_tree(Map::empty(), &root)),
        uids_distinct(root) ==> walk_tree(Map::empty(), &root)[root.uid.0] == root,
        uids_distinct(root) ==> forall|i: int| 0 <= i < root.components@.len()
            ==> walk_tree(Map::empty(), &root)[#[trigger] root.components@[i].uid.0] == root.components@[i],
{
    let m0 = Map::<u32, &Component>::empty();
    lemma_walk_tree(m0, &root);
    assert(m0.dom().union(tree_uids(root)) =~= tree_uids(root));
    if uids_distinct(root) {
        let m1 = m0.insert(root.uid.0, &root);
        lemma_walk_comps_keeps(m1, root.components@, root.uid.0);
        assert forall|i: int| 0 <= i < root.components@.len()
            implies walk_tree(m0, &root)[#[trigger] root.components@[i].uid.0] == root.components@[i] by {
            lemma_walk_comps_finds(m1, root.components@, i);
        }
    }
}

} // verus!
