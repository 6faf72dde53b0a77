//! Plans that order the items of a component for encoding: every item
//! after the items it refers to, and the sub-items of a scoped item in
//! their own order.

use vstd::prelude::*;
use std::collections::HashSet;
use crate::component::{Component, Built};
use crate::concrete::lemma_realizes_deep_wf;
use crate::parse::{
    parse_spec, parse_result, payload_section, nested_part, after_nested, lemma_nested_split, closing_end,
    lemma_closing_end_bounds,
};
use crate::payload::Payload;
use crate::edit::{merge_section, section_room};
use crate::idx_spaces::{Space, SpaceSubtype, IndexSpaceOf};
use crate::refs::{Depth, IndexedRef, RefKind, ReferencedIndices};
use crate::item_refs::{concat_refs, lemma_concat_refs_step, lemma_concat_refs_all};
use crate::section::ComponentSection;
use crate::items::{
    ComponentType, ComponentTypeDeclaration, InstanceTypeDeclaration, CoreType, Instance, ComponentInstance, Module,
    CanonicalFunction,
};

verus! {

broadcast use vstd::std_specs::hash::group_hash_axioms;

/// The order in which the sub-items of an item are encoded, each with the
/// order of its own sub-items where it has any. An index is put in the
/// order once only.
#[derive(Debug)]
pub struct SubItemPlan {
    /// Item index, with the optional order of its sub-items.
    order: Vec<(usize, Option<SubItemPlan>)>,
    seen: HashSet<usize>,
}

impl SubItemPlan {
    /// The planned order.
    pub closed spec fn order_seq(self) -> Seq<(usize, Option<SubItemPlan>)> {
        self.order@
    }

    /// The indices planned so far.
    pub closed spec fn seen_set(self) -> Set<usize> {
        self.seen@
    }

    /// The indices of the planned order.
    pub open spec fn indices(self) -> Seq<usize> {
        self.order_seq().map_values(|e: (usize, Option<SubItemPlan>)| e.0)
    }

    /// Well-formedness: the seen indices are exactly those of the order, and
    /// each index is planned once.
    pub open spec fn wf(self) -> bool {
        &&& self.indices().no_duplicates()
        &&& forall|i: usize| #[trigger] self.seen_set().contains(i) <==> self.indices().contains(i)
    }

    /// An empty plan.
    pub fn new() -> (r: Self)
        ensures
            r.order_seq() == Seq::<(usize, Option<SubItemPlan>)>::empty(),
            r.seen_set() == Set::<usize>::empty(),
            r.wf(),
    {
        let r = SubItemPlan { order: Vec::new(), seen: HashSet::new() };
        assert(r.indices() =~= Seq::<usize>::empty());
        r
    }

    /// The planned order.
    pub fn order(&self) -> (r: &[(usize, Option<SubItemPlan>)])
        ensures
            r@ == self.order_seq(),
    {
        self.order.as_slice()
    }

    /// Plans item `idx` (with the order of its sub-items) after those
    /// already planned, unless it is planned already.
    pub fn push(&mut self, idx: usize, subplan: Option<SubItemPlan>)
        requires
            old(self).wf(),
        ensures
            final(self).wf(),
            old(self).seen_set().contains(idx) ==> final(self).order_seq() == old(self).order_seq(),
            !old(self).seen_set().contains(idx) ==> final(self).order_seq() == old(self).order_seq().push(
                (idx, subplan),
            ),
            final(self).seen_set() == old(self).seen_set().insert(idx),
    {
        if !self.seen.contains(&idx) {
            self.order.push((idx, subplan));
            proof {
                let old_ix = old(self).indices();
                let new_ix = self.indices();
                assert(new_ix =~= old_ix.push(idx));
                assert(!old(self).seen_set().contains(idx));
                assert(!old_ix.contains(idx));
                assert forall|a: int, b: int| 0 <= a < new_ix.len() && 0 <= b < new_ix.len() && a != b
                    implies new_ix[a] != new_ix[b] by {
                    if a < old_ix.len() && b < old_ix.len() {
                    } else if a == old_ix.len() {
                        assert(old_ix[b] == new_ix[b]);
                    } else {
                        assert(old_ix[a] == new_ix[a]);
                    }
                }
                assert forall|i: usize| self.seen_set().insert(idx).contains(i) <==> #[trigger] new_ix.contains(i) by {
                    if new_ix.contains(i) && i != idx {
                        let k = choose|k: int| 0 <= k < new_ix.len() && new_ix[k] == i;
                        assert(old_ix[k] == i);
                    }
                    if old_ix.contains(i) {
                        let k = choose|k: int| 0 <= k < old_ix.len() && old_ix[k] == i;
                        assert(new_ix[k] == i);
                    }
                    if i == idx {
                        assert(new_ix[old_ix.len() as int] == idx);
                    }
                }
            }
        }
        self.seen.insert(idx);
        proof {
            if old(self).seen_set().contains(idx) {
                assert(self.seen_set() =~= old(self).seen_set());
                assert(self.indices() =~= old(self).indices());
            }
        }
    }
}


/// Where an item of a component lies: the kind of section that holds it,
/// and its position among the items of that kind.
#[derive(Clone, Copy, Debug, PartialEq, Eq, Structural)]
pub struct ItemLoc {
    pub section: ComponentSection,
    pub idx: usize,
}

/// The item of a component that a `(vector, position)` pair of its index
/// spaces names, for a reference into index space `space`.
pub open spec fn loc_of(sub: SpaceSubtype, space: Space, idx: usize) -> ItemLoc {
    let section = match sub {
        SpaceSubtype::Import => ComponentSection::ComponentImport,
        SpaceSubtype::Export => ComponentSection::ComponentExport,
        SpaceSubtype::Alias => ComponentSection::Alias,
        SpaceSubtype::Main => match space {
            Space::Comp => ComponentSection::Component,
            Space::CompType => ComponentSection::ComponentType,
            Space::CompInst => ComponentSection::ComponentInstance,
            Space::CoreInst => ComponentSection::CoreInstance,
            Space::CoreModule => ComponentSection::Module,
            Space::CoreType => ComponentSection::CoreType,
            _ => ComponentSection::Canon,
        },
    };
    ItemLoc { section, idx }
}

/// The number of items of `kind` that precede, in order, the sections `s`
/// announce.
pub open spec fn section_total(s: Seq<(u32, ComponentSection)>, kind: ComponentSection) -> nat
    decreases s.len(),
{
    if s.len() == 0 {
        0
    } else {
        section_total(s.drop_last(), kind) + if s.last().1 == kind {
            s.last().0 as nat
        } else {
            0
        }
    }
}

/// Section totals only grow as sections are added.
proof fn lemma_section_total_prefix(s: Seq<(u32, ComponentSection)>, j: int, kind: ComponentSection)
    requires
        0 <= j <= s.len(),
    ensures
        section_total(s.take(j), kind) <= section_total(s, kind),
    decreases s.len() - j,
{
    if j < s.len() {
        lemma_section_total_prefix(s, j + 1, kind);
        assert(s.take(j + 1).drop_last() =~= s.take(j));
    } else {
        assert(s.take(j) =~= s);
    }
}

impl Component {
    /// The number of items of `kind` the component holds.
    pub open spec fn count_of(self, kind: ComponentSection) -> nat {
        match kind {
            ComponentSection::Module => self.modules@.len(),
            ComponentSection::Alias => self.alias.items@.len(),
            ComponentSection::CoreType => self.core_types@.len(),
            ComponentSection::ComponentType => self.component_types.items@.len(),
            ComponentSection::ComponentImport => self.imports@.len(),
            ComponentSection::ComponentExport => self.exports@.len(),
            ComponentSection::CoreInstance => self.instances@.len(),
            ComponentSection::ComponentInstance => self.component_instance@.len(),
            ComponentSection::Canon => self.canons.items@.len(),
            ComponentSection::CustomSection => self.custom_sections@.len(),
            ComponentSection::ComponentStartSection => self.start_section@.len(),
            ComponentSection::Component => self.components@.len(),
        }
    }

    /// The number of items the component holds.
    pub open spec fn total_items(self) -> nat {
        self.count_of(ComponentSection::Module) + self.count_of(ComponentSection::Alias)
            + self.count_of(ComponentSection::CoreType) + self.count_of(ComponentSection::ComponentType)
            + self.count_of(ComponentSection::ComponentImport) + self.count_of(ComponentSection::ComponentExport)
            + self.count_of(ComponentSection::CoreInstance) + self.count_of(ComponentSection::ComponentInstance)
            + self.count_of(ComponentSection::Canon) + self.count_of(ComponentSection::CustomSection)
            + self.count_of(ComponentSection::ComponentStartSection) + self.count_of(ComponentSection::Component)
    }

    /// `l` is an item of the component.
    pub open spec fn holds(self, l: ItemLoc) -> bool {
        l.idx < self.count_of(l.section)
    }

    /// The item a resolvable reference of the component's own scope names.
    pub open spec fn ref_loc(self, r: IndexedRef) -> ItemLoc {
        let loc = self.scope().space(r.space).lookup(r.index as usize).unwrap();
        loc_of(loc.0, r.space, loc.1)
    }

    /// The references through which the item at `l` depends on other items:
    /// those of the items a section lists on their own, and, for a nested
    /// component, the references its items (and those of the components
    /// nested in it) make to this component's scope, taken as references of
    /// this scope. Types are planned in their section's order, and modules
    /// and custom sections refer to no item of the component.
    pub open spec fn item_refs_at(self, l: ItemLoc) -> Seq<RefKind> {
        match l.section {
            ComponentSection::Component => outer_refs(self.components@[l.idx as int], 1),
            ComponentSection::Alias => self.alias.items@[l.idx as int].spec_referenced_indices(),
            ComponentSection::ComponentImport => self.imports@[l.idx as int].spec_referenced_indices(),
            ComponentSection::ComponentExport => self.exports@[l.idx as int].spec_referenced_indices(),
            ComponentSection::CoreInstance => self.instances@[l.idx as int].spec_referenced_indices(),
            ComponentSection::ComponentInstance => self.component_instance@[l.idx as int].spec_referenced_indices(),
            ComponentSection::Canon => self.canons.items@[l.idx as int].spec_referenced_indices(),
            ComponentSection::ComponentStartSection => self.start_section@[l.idx as int].spec_referenced_indices(),
            _ => Seq::empty(),
        }
    }

    /// A reference that makes its item depend on another item of this
    /// component: one of the component's own scope that names an item
    /// (an item of an enclosing component is planned before the component
    /// that refers to it).
    pub open spec fn is_dep_ref(self, k: RefKind) -> bool {
        &&& k.ref_.depth.level() == 0
        &&& self.resolvable(k.ref_)
    }

    /// The item at `x` refers to the item at `y`.
    pub open spec fn depends_on(self, x: ItemLoc, y: ItemLoc) -> bool {
        exists|i: int|
            0 <= i < self.item_refs_at(x).len() && self.is_dep_ref(#[trigger] self.item_refs_at(x)[i])
                && self.ref_loc(self.item_refs_at(x)[i].ref_) == y
    }

    /// `rank` puts each item above the items it refers to.
    pub open spec fn ranks(self, rank: spec_fn(ItemLoc) -> nat) -> bool {
        forall|x: ItemLoc, y: ItemLoc| #[trigger] self.depends_on(x, y) ==> rank(y) < rank(x)
    }

    /// No item depends, through other items, on itself: some ranking of
    /// the items puts each item above those it refers to.
    pub open spec fn acyclic(self) -> bool {
        exists|rank: spec_fn(ItemLoc) -> nat| #[trigger] self.ranks(rank)
    }

    /// A ranking that shows the component acyclic, where it is.
    pub open spec fn rank(self) -> spec_fn(ItemLoc) -> nat {
        choose|rank: spec_fn(ItemLoc) -> nat| #[trigger] self.ranks(rank)
    }

    /// The sections announce no more items of a kind than the component
    /// holds.
    pub open spec fn sections_fit(self) -> bool {
        forall|k: ComponentSection| #[trigger] section_total(self.sections@, k) <= self.count_of(k)
    }

    /// The component and its nested components are well formed, and their
    /// sections fit their items.
    pub open spec fn collectable(self) -> bool
        decreases self,
    {
        &&& self.wf()
        &&& self.sections_fit()
        &&& forall|i: int| 0 <= i < self.components@.len() ==> (#[trigger] self.components@[i]).collectable()
    }
}


// ---------------------------------------------------------------------
// The order of the sub-items of scoped types.
// ---------------------------------------------------------------------

/// `p` orders `n` sub-items in their own order, `0` to `n - 1`.
pub open spec fn in_order(p: SubItemPlan, n: nat) -> bool {
    &&& p.wf()
    &&& p.order_seq().len() == n
    &&& forall|i: int| 0 <= i < n ==> (#[trigger] p.order_seq()[i]).0 == i
}

impl ComponentType {
    /// The plan of the declarations of a component or instance type: each
    /// declaration in order, with the plan of its own declarations; other
    /// types have none.
    pub open spec fn subitems_ok(self, p: Option<SubItemPlan>) -> bool
        decreases self,
    {
        match self {
            ComponentType::Component(ds) => p matches Some(q) && in_order(q, ds@.len())
                && forall|i: int| 0 <= i < ds@.len() ==> (#[trigger] ds@[i]).subitems_ok(q.order_seq()[i].1),
            ComponentType::Instance(ds) => p matches Some(q) && in_order(q, ds@.len())
                && forall|i: int| 0 <= i < ds@.len() ==> (#[trigger] ds@[i]).subitems_ok(q.order_seq()[i].1),
            _ => p is None,
        }
    }

    /// Plans the declarations of this type, where it has any.
    pub fn collect_subitem(&self) -> (r: Option<SubItemPlan>)
        ensures
            self.subitems_ok(r),
        decreases *self,
    {
        match self {
            ComponentType::Component(ds) => {
                let mut q = SubItemPlan::new();
                for i in 0..ds.len()
                    invariant
                        *self == ComponentType::Component(*ds),
                        q.wf(),
                        q.order_seq().len() == i,
                        forall|k: usize| #[trigger] q.seen_set().contains(k) <==> k < i,
                        forall|j: int| 0 <= j < i ==> (#[trigger] q.order_seq()[j]).0 == j
                            && ds@[j].subitems_ok(q.order_seq()[j].1),
                {
                    proof {
                        assert(decreases_to!(*self => self->Component_0));
                        assert(decreases_to!(*self => ds@[i as int]));
                    }
                    let sub = ds[i].collect_subitem();
                    q.push(i, sub);
                }
                Some(q)
            },
            ComponentType::Instance(ds) => {
                let mut q = SubItemPlan::new();
                for i in 0..ds.len()
                    invariant
                        *self == ComponentType::Instance(*ds),
                        q.wf(),
                        q.order_seq().len() == i,
                        forall|k: usize| #[trigger] q.seen_set().contains(k) <==> k < i,
                        forall|j: int| 0 <= j < i ==> (#[trigger] q.order_seq()[j]).0 == j
                            && ds@[j].subitems_ok(q.order_seq()[j].1),
                {
                    proof {
                        assert(decreases_to!(*self => self->Instance_0));
                        assert(decreases_to!(*self => ds@[i as int]));
                    }
                    let sub = ds[i].collect_subitem();
                    q.push(i, sub);
                }
                Some(q)
            },
            _ => None,
        }
    }
}

impl ComponentTypeDeclaration {
    /// The plan of a declaration: that of the type it declares, if any.
    pub open spec fn subitems_ok(self, p: Option<SubItemPlan>) -> bool
        decreases self,
    {
        match self {
            ComponentTypeDeclaration::CoreType(t) => t.subitems_ok(p),
            ComponentTypeDeclaration::Type(t) => t.subitems_ok(p),
            _ => p is None,
        }
    }

    /// Plans the declarations of the type this declares, if any.
    pub fn collect_subitem(&self) -> (r: Option<SubItemPlan>)
        ensures
            self.subitems_ok(r),
        decreases *self,
    {
        match self {
            ComponentTypeDeclaration::CoreType(t) => t.collect_subitem(),
            ComponentTypeDeclaration::Type(t) => t.collect_subitem(),
            _ => None,
        }
    }
}

impl InstanceTypeDeclaration {
    /// The plan of a declaration: that of the type it declares, if any.
    pub open spec fn subitems_ok(self, p: Option<SubItemPlan>) -> bool
        decreases self,
    {
        match self {
            InstanceTypeDeclaration::CoreType(t) => t.subitems_ok(p),
            InstanceTypeDeclaration::Type(t) => t.subitems_ok(p),
            _ => p is None,
        }
    }

    /// Plans the declarations of the type this declares, if any.
    pub fn collect_subitem(&self) -> (r: Option<SubItemPlan>)
        ensures
            self.subitems_ok(r),
        decreases *self,
    {
        match self {
            InstanceTypeDeclaration::CoreType(t) => t.collect_subitem(),
            InstanceTypeDeclaration::Type(t) => t.collect_subitem(),
            _ => None,
        }
    }
}

impl CoreType {
    /// The plan of the declarations of a module type: each in order, none
    /// with sub-items of its own; a recursion group has none.
    pub open spec fn subitems_ok(self, p: Option<SubItemPlan>) -> bool {
        match self {
            CoreType::Module(ds) => p matches Some(q) && in_order(q, ds@.len())
                && forall|i: int| 0 <= i < ds@.len() ==> (#[trigger] q.order_seq()[i]).1 is None,
            CoreType::Rec(_) => p is None,
        }
    }

    /// Plans the declarations of a module type.
    pub fn collect_subitem(&self) -> (r: Option<SubItemPlan>)
        ensures
            self.subitems_ok(r),
    {
        match self {
            CoreType::Module(ds) => {
                let mut q = SubItemPlan::new();
                for i in 0..ds.len()
                    invariant
                        q.wf(),
                        q.order_seq().len() == i,
                        forall|k: usize| #[trigger] q.seen_set().contains(k) <==> k < i,
                        forall|j: int| 0 <= j < i ==> (#[trigger] q.order_seq()[j]).0 == j
                            && q.order_seq()[j].1 is None,
                {
                    q.push(i, None);
                }
                Some(q)
            },
            CoreType::Rec(_) => None,
        }
    }
}


// ---------------------------------------------------------------------
// The plan of a component.
// ---------------------------------------------------------------------

/// One planned item of a component, by its position among the items of
/// its kind: a nested component with its own plan, a scoped type with the
/// plan of its declarations.
#[derive(Debug)]
pub enum ComponentItem {
    Component { idx: usize, plan: ComponentPlan },
    Module { idx: usize },
    CompType { idx: usize, subitem_plan: Option<SubItemPlan> },
    CompInst { idx: usize },
    CanonicalFunc { idx: usize },
    Alias { idx: usize },
    Import { idx: usize },
    Export { idx: usize },
    CoreType { idx: usize, subitem_plan: Option<SubItemPlan> },
    Inst { idx: usize },
    Start { idx: usize },
    CustomSection { idx: usize },
}

/// The order in which the items of a component are encoded.
#[derive(Debug)]
pub struct ComponentPlan {
    pub items: Vec<ComponentItem>,
}

impl ComponentItem {
    /// The item planned.
    pub open spec fn loc(self) -> ItemLoc {
        match self {
            ComponentItem::Component { idx, .. } => ItemLoc { section: ComponentSection::Component, idx },
            ComponentItem::Module { idx } => ItemLoc { section: ComponentSection::Module, idx },
            ComponentItem::CompType { idx, .. } => ItemLoc { section: ComponentSection::ComponentType, idx },
            ComponentItem::CompInst { idx } => ItemLoc { section: ComponentSection::ComponentInstance, idx },
            ComponentItem::CanonicalFunc { idx } => ItemLoc { section: ComponentSection::Canon, idx },
            ComponentItem::Alias { idx } => ItemLoc { section: ComponentSection::Alias, idx },
            ComponentItem::Import { idx } => ItemLoc { section: ComponentSection::ComponentImport, idx },
            ComponentItem::Export { idx } => ItemLoc { section: ComponentSection::ComponentExport, idx },
            ComponentItem::CoreType { idx, .. } => ItemLoc { section: ComponentSection::CoreType, idx },
            ComponentItem::Inst { idx } => ItemLoc { section: ComponentSection::CoreInstance, idx },
            ComponentItem::Start { idx } => ItemLoc { section: ComponentSection::ComponentStartSection, idx },
            ComponentItem::CustomSection { idx } => ItemLoc { section: ComponentSection::CustomSection, idx },
        }
    }

    /// The item planned.
    pub fn location(&self) -> (r: ItemLoc)
        ensures
            r == self.loc(),
    {
        match self {
            ComponentItem::Component { idx, .. } => ItemLoc { section: ComponentSection::Component, idx: *idx },
            ComponentItem::Module { idx } => ItemLoc { section: ComponentSection::Module, idx: *idx },
            ComponentItem::CompType { idx, .. } => ItemLoc { section: ComponentSection::ComponentType, idx: *idx },
            ComponentItem::CompInst { idx } => ItemLoc { section: ComponentSection::ComponentInstance, idx: *idx },
            ComponentItem::CanonicalFunc { idx } => ItemLoc { section: ComponentSection::Canon, idx: *idx },
            ComponentItem::Alias { idx } => ItemLoc { section: ComponentSection::Alias, idx: *idx },
            ComponentItem::Import { idx } => ItemLoc { section: ComponentSection::ComponentImport, idx: *idx },
            ComponentItem::Export { idx } => ItemLoc { section: ComponentSection::ComponentExport, idx: *idx },
            ComponentItem::CoreType { idx, .. } => ItemLoc { section: ComponentSection::CoreType, idx: *idx },
            ComponentItem::Inst { idx } => ItemLoc { section: ComponentSection::CoreInstance, idx: *idx },
            ComponentItem::Start { idx } => ItemLoc { section: ComponentSection::ComponentStartSection, idx: *idx },
            ComponentItem::CustomSection { idx } => ItemLoc { section: ComponentSection::CustomSection, idx: *idx },
        }
    }
}

/// The items a plan orders.
pub open spec fn plan_locs(items: Seq<ComponentItem>) -> Seq<ItemLoc> {
    items.map_values(|it: ComponentItem| it.loc())
}

/// Every item of `locs` comes after the items of `c` it refers to.
pub open spec fn deps_first(c: Component, locs: Seq<ItemLoc>) -> bool {
    forall|i: int, y: ItemLoc|
        0 <= i < locs.len() && #[trigger] c.depends_on(locs[i], y) ==> exists|j: int|
            0 <= j < i && #[trigger] locs[j] == y
}

/// A planned item of `c` carries what it must: a nested component its own
/// plan, a scoped type the plan of its declarations.
pub open spec fn item_ok(c: Component, it: ComponentItem) -> bool
    decreases c, 0int,
{
    match it {
        ComponentItem::Component { idx, plan } => idx < c.components@.len() && plan_ok(c.components@[idx as int], plan),
        ComponentItem::CompType { idx, subitem_plan } => idx < c.component_types.items@.len()
            && c.component_types.items@[idx as int].subitems_ok(subitem_plan),
        ComponentItem::CoreType { idx, subitem_plan } => idx < c.core_types@.len()
            && c.core_types@[idx as int].subitems_ok(subitem_plan),
        _ => true,
    }
}

/// `p` plans component `c`: each item of `c` at most once; every item its
/// sections announce; where no item depends on itself, every item after
/// the items it refers to; and nested components and scoped types with
/// their own plans.
pub open spec fn plan_ok(c: Component, p: ComponentPlan) -> bool
    decreases c, 1int,
{
    let locs = plan_locs(p.items@);
    &&& locs.no_duplicates()
    &&& forall|i: int| 0 <= i < locs.len() ==> c.holds(#[trigger] locs[i])
    &&& forall|l: ItemLoc| l.idx < section_total(c.sections@, l.section) ==> #[trigger] locs.contains(l)
    &&& c.acyclic() ==> deps_first(c, locs)
    &&& forall|i: int| 0 <= i < p.items@.len() ==> item_ok(c, #[trigger] p.items@[i])
}

/// The items of a component collected so far, by kind.
pub(crate) struct Seen {
    modules: HashSet<usize>,
    aliases: HashSet<usize>,
    core_types: HashSet<usize>,
    comp_types: HashSet<usize>,
    imports: HashSet<usize>,
    exports: HashSet<usize>,
    instances: HashSet<usize>,
    comp_instances: HashSet<usize>,
    canon_funcs: HashSet<usize>,
    custom_sections: HashSet<usize>,
    start: HashSet<usize>,
    components: HashSet<usize>,
}

impl Seen {
    /// The positions collected among the items of `kind`.
    pub(crate) closed spec fn of(self, kind: ComponentSection) -> Set<usize> {
        match kind {
            ComponentSection::Module => self.modules@,
            ComponentSection::Alias => self.aliases@,
            ComponentSection::CoreType => self.core_types@,
            ComponentSection::ComponentType => self.comp_types@,
            ComponentSection::ComponentImport => self.imports@,
            ComponentSection::ComponentExport => self.exports@,
            ComponentSection::CoreInstance => self.instances@,
            ComponentSection::ComponentInstance => self.comp_instances@,
            ComponentSection::Canon => self.canon_funcs@,
            ComponentSection::CustomSection => self.custom_sections@,
            ComponentSection::ComponentStartSection => self.start@,
            ComponentSection::Component => self.components@,
        }
    }

    /// Item `l` has been collected.
    pub(crate) open spec fn has(self, l: ItemLoc) -> bool {
        self.of(l.section).contains(l.idx)
    }

    /// The number of items collected.
    pub(crate) open spec fn count(self) -> nat {
        self.of(ComponentSection::Module).len() + self.of(ComponentSection::Alias).len()
            + self.of(ComponentSection::CoreType).len() + self.of(ComponentSection::ComponentType).len()
            + self.of(ComponentSection::ComponentImport).len() + self.of(ComponentSection::ComponentExport).len()
            + self.of(ComponentSection::CoreInstance).len() + self.of(ComponentSection::ComponentInstance).len()
            + self.of(ComponentSection::Canon).len() + self.of(ComponentSection::CustomSection).len()
            + self.of(ComponentSection::ComponentStartSection).len() + self.of(ComponentSection::Component).len()
    }

    /// Nothing collected.
    pub(crate) fn new() -> (r: Self)
        ensures
            forall|k: ComponentSection| #[trigger] r.of(k) == Set::<usize>::empty(),
    {
        Seen {
            modules: HashSet::new(),
            aliases: HashSet::new(),
            core_types: HashSet::new(),
            comp_types: HashSet::new(),
            imports: HashSet::new(),
            exports: HashSet::new(),
            instances: HashSet::new(),
            comp_instances: HashSet::new(),
            canon_funcs: HashSet::new(),
            custom_sections: HashSet::new(),
            start: HashSet::new(),
            components: HashSet::new(),
        }
    }

    /// Whether item `l` has been collected.
    pub(crate) fn contains(&self, l: &ItemLoc) -> (r: bool)
        ensures
            r == self.has(*l),
    {
        match l.section {
            ComponentSection::Module => self.modules.contains(&l.idx),
            ComponentSection::Alias => self.aliases.contains(&l.idx),
            ComponentSection::CoreType => self.core_types.contains(&l.idx),
            ComponentSection::ComponentType => self.comp_types.contains(&l.idx),
            ComponentSection::ComponentImport => self.imports.contains(&l.idx),
            ComponentSection::ComponentExport => self.exports.contains(&l.idx),
            ComponentSection::CoreInstance => self.instances.contains(&l.idx),
            ComponentSection::ComponentInstance => self.comp_instances.contains(&l.idx),
            ComponentSection::Canon => self.canon_funcs.contains(&l.idx),
            ComponentSection::CustomSection => self.custom_sections.contains(&l.idx),
            ComponentSection::ComponentStartSection => self.start.contains(&l.idx),
            ComponentSection::Component => self.components.contains(&l.idx),
        }
    }

    /// Records item `l` as collected.
    pub(crate) fn insert(&mut self, l: &ItemLoc)
        ensures
            forall|k: ComponentSection| #[trigger] final(self).of(k) == if k == l.section {
                old(self).of(k).insert(l.idx)
            } else {
                old(self).of(k)
            },
    {
        match l.section {
            ComponentSection::Module => { self.modules.insert(l.idx); },
            ComponentSection::Alias => { self.aliases.insert(l.idx); },
            ComponentSection::CoreType => { self.core_types.insert(l.idx); },
            ComponentSection::ComponentType => { self.comp_types.insert(l.idx); },
            ComponentSection::ComponentImport => { self.imports.insert(l.idx); },
            ComponentSection::ComponentExport => { self.exports.insert(l.idx); },
            ComponentSection::CoreInstance => { self.instances.insert(l.idx); },
            ComponentSection::ComponentInstance => { self.comp_instances.insert(l.idx); },
            ComponentSection::Canon => { self.canon_funcs.insert(l.idx); },
            ComponentSection::CustomSection => { self.custom_sections.insert(l.idx); },
            ComponentSection::ComponentStartSection => { self.start.insert(l.idx); },
            ComponentSection::Component => { self.components.insert(l.idx); },
        }
    }
}


// ---------------------------------------------------------------------
// References that nested components make to an enclosing scope.
// ---------------------------------------------------------------------

/// Reference `k` taken as one of the scope it reaches.
pub open spec fn rebased(k: RefKind) -> RefKind {
    RefKind { role: k.role, ref_: IndexedRef { depth: Depth::at_level(0), space: k.ref_.space, index: k.ref_.index } }
}

/// The references of `refs` made `level` scopes out, in order, each taken
/// as one of the scope they reach.
pub open spec fn at_level(refs: Seq<RefKind>, level: nat) -> Seq<RefKind>
    decreases refs.len(),
{
    if refs.len() == 0 {
        Seq::empty()
    } else {
        at_level(refs.drop_last(), level) + if refs.last().ref_.depth.level() == level {
            seq![rebased(refs.last())]
        } else {
            Seq::empty()
        }
    }
}

/// Picking the references of a level out of two lists one after the other.
proof fn lemma_at_level_append(a: Seq<RefKind>, b: Seq<RefKind>, level: nat)
    ensures
        at_level(a + b, level) == at_level(a, level) + at_level(b, level),
    decreases b.len(),
{
    if b.len() == 0 {
        assert(a + b =~= a);
        assert(at_level(a, level) + Seq::<RefKind>::empty() =~= at_level(a, level));
    } else {
        assert((a + b).drop_last() =~= a + b.drop_last());
        lemma_at_level_append(a, b.drop_last(), level);
    }
}

/// The references the items `s` make, each item's in turn.
pub open spec fn all_refs<T: ReferencedIndices>(s: Seq<T>) -> Seq<RefKind> {
    concat_refs(Seq::new(s.len(), |i: int| s[i].spec_referenced_indices()))
}

/// The references of the items of component `c` that a section lists on
/// their own.
pub open spec fn listed_refs(c: Component) -> Seq<RefKind> {
    all_refs(c.alias.items@) + all_refs(c.imports@) + all_refs(c.exports@) + all_refs(c.instances@) + all_refs(
        c.component_instance@,
    ) + all_refs(c.canons.items@) + all_refs(c.start_section@)
}

/// The references that the items of `c`, and of the components nested in
/// it, make to the scope `level` scopes out of `c`, taken as references
/// of that scope.
pub open spec fn outer_refs(c: Component, level: nat) -> Seq<RefKind>
    decreases c,
{
    at_level(listed_refs(c), level) + if level < usize::MAX {
        comps_outer_refs(c.components@, level + 1)
    } else {
        Seq::empty()
    }
}

/// What [`outer_refs`] gives for each of the components `cs`, in turn.
pub open spec fn comps_outer_refs(cs: Seq<Component>, level: nat) -> Seq<RefKind>
    decreases cs,
{
    if cs.len() == 0 {
        Seq::empty()
    } else {
        comps_outer_refs(cs.drop_last(), level) + outer_refs(cs.last(), level)
    }
}

/// Appends the references the items `items` make `level` scopes out, taken
/// as references of the scope they reach.
fn push_level_refs<T: ReferencedIndices>(items: &Vec<T>, level: usize, out: &mut Vec<RefKind>)
    requires
        forall|i: int| 0 <= i < items@.len() ==> (#[trigger] items@[i]).refs_readable(),
    ensures
        final(out)@ == old(out)@ + at_level(all_refs(items@), level as nat),
{
    let ghost parts = Seq::new(items@.len(), |i: int| items@[i].spec_referenced_indices());
    let ghost start = out@;
    for i in 0..items.len()
        invariant
            forall|i: int| 0 <= i < items@.len() ==> (#[trigger] items@[i]).refs_readable(),
            parts == Seq::new(items@.len(), |i: int| items@[i].spec_referenced_indices()),
            out@ == start + at_level(concat_refs(parts.take(i as int)), level as nat),
    {
        let inner = items[i].referenced_indices();
        let ghost mid = out@;
        for j in 0..inner.len()
            invariant
                out@ == mid + at_level(inner@.take(j as int), level as nat),
        {
            let k = inner[j];
            proof {
                assert(inner@.take(j + 1).drop_last() =~= inner@.take(j as int));
                assert(inner@.take(j + 1).last() == k);
            }
            if k.ref_.depth.val() == level {
                out.push(RefKind { role: k.role, ref_: IndexedRef { depth: Depth::default(), space: k.ref_.space, index: k.ref_.index } });
                proof {
                    assert(out@ =~= mid + at_level(inner@.take(j + 1), level as nat));
                }
            } else {
                proof {
                    assert(at_level(inner@.take(j as int), level as nat) + Seq::<RefKind>::empty()
                        =~= at_level(inner@.take(j as int), level as nat));
                }
            }
        }
        proof {
            assert(inner@.take(inner@.len() as int) =~= inner@);
            lemma_concat_refs_step(parts, i as int);
            lemma_at_level_append(concat_refs(parts.take(i as int)), parts[i as int], level as nat);
            assert(out@ =~= start + at_level(concat_refs(parts.take(i + 1)), level as nat));
        }
    }
    proof {
        lemma_concat_refs_all(parts);
    }
}

/// The references of a level that the items of `c` make, by the kind of
/// item.
proof fn lemma_listed_at_level(c: Component, l: nat)
    ensures
        at_level(listed_refs(c), l) == at_level(all_refs(c.alias.items@), l) + at_level(all_refs(c.imports@), l)
            + at_level(all_refs(c.exports@), l) + at_level(all_refs(c.instances@), l) + at_level(
            all_refs(c.component_instance@),
            l,
        ) + at_level(all_refs(c.canons.items@), l) + at_level(all_refs(c.start_section@), l),
{
    let a = all_refs(c.alias.items@);
    let b = all_refs(c.imports@);
    let e = all_refs(c.exports@);
    let n = all_refs(c.instances@);
    let ci = all_refs(c.component_instance@);
    let k = all_refs(c.canons.items@);
    let st = all_refs(c.start_section@);
    lemma_at_level_append(a, b, l);
    lemma_at_level_append(a + b, e, l);
    lemma_at_level_append(a + b + e, n, l);
    lemma_at_level_append(a + b + e + n, ci, l);
    lemma_at_level_append(a + b + e + n + ci, k, l);
    lemma_at_level_append(a + b + e + n + ci + k, st, l);
}

/// Appends the references of a level that the items of `c` make.
#[verifier::spinoff_prover]
#[verifier::rlimit(40)]
fn push_listed_refs(c: &Component, level: usize, out: &mut Vec<RefKind>)
    ensures
        final(out)@ == old(out)@ + at_level(listed_refs(*c), level as nat),
{
    let ghost l = level as nat;
    let ghost start = out@;
    push_level_refs(&c.alias.items, level, out);
    let ghost s1 = out@;
    push_level_refs(&c.imports, level, out);
    let ghost s2 = out@;
    push_level_refs(&c.exports, level, out);
    let ghost s3 = out@;
    push_level_refs(&c.instances, level, out);
    let ghost s4 = out@;
    push_level_refs(&c.component_instance, level, out);
    let ghost s5 = out@;
    push_level_refs(&c.canons.items, level, out);
    let ghost s6 = out@;
    push_level_refs(&c.start_section, level, out);
    proof {
        lemma_listed_at_level(*c, l);
        assert(out@ =~= start + at_level(listed_refs(*c), l));
    }
}

/// Appends the references that the items of `c`, and of the components
/// nested in it, make `level` scopes out of `c`.
fn collect_outer_refs(c: &Component, level: usize, out: &mut Vec<RefKind>)
    ensures
        final(out)@ == old(out)@ + outer_refs(*c, level as nat),
    decreases *c,
{
    let ghost start = out@;
    push_listed_refs(c, level, out);
    let ghost own = out@;
    if level < usize::MAX {
        let cs = &c.components;
        for i in 0..cs.len()
            invariant
                cs@ == c.components@,
                level < usize::MAX,
                out@ == own + comps_outer_refs(cs@.take(i as int), (level + 1) as nat),
        {
            proof {
                assert(cs@.take(i + 1).drop_last() =~= cs@.take(i as int));
                assert(cs@.take(i + 1).last() == cs@[i as int]);
            }
            collect_outer_refs(&cs[i], level + 1, out);
            proof {
                assert(out@ =~= own + comps_outer_refs(cs@.take(i + 1), (level + 1) as nat));
            }
        }
        proof {
            assert(cs@.take(cs@.len() as int) =~= cs@);
            assert(out@ =~= start + outer_refs(*c, level as nat));
        }
    } else {
        proof {
            assert(out@ =~= start + outer_refs(*c, level as nat));
        }
    }
}

// ---------------------------------------------------------------------
// Collecting a component, each item after the items it refers to.
// ---------------------------------------------------------------------

/// The positions below `n`.
pub open spec fn below(n: nat) -> Set<usize> {
    Set::new(|i: usize| i < n)
}

/// The positions below `n` are finitely many: `n`, as far as positions go.
proof fn lemma_below(n: nat)
    requires
        n <= usize::MAX + 1,
    ensures
        below(n).finite(),
        below(n).len() == n,
    decreases n,
{
    if n == 0 {
        assert(below(0) =~= Set::<usize>::empty());
    } else {
        lemma_below((n - 1) as nat);
        assert(below(n) =~= below((n - 1) as nat).insert((n - 1) as usize));
    }
}

/// Positions all below `n` are finitely many, at most `n`.
proof fn lemma_bounded_set(s: Set<usize>, n: nat)
    requires
        forall|i: usize| #[trigger] s.contains(i) ==> i < n,
    ensures
        s.finite(),
        s.len() <= n,
{
    let m: nat = if n <= usize::MAX + 1 { n } else { (usize::MAX + 1) as nat };
    lemma_below(m);
    assert(s.subset_of(below(m)));
    vstd::set_lib::lemma_len_subset(s, below(m));
}

/// Items are collected in the order of a walk that collects, before an
/// item, the items it refers to: `stack` holds the items being collected,
/// each referred to by the one below it; `seen` holds those planned or
/// being collected.
pub(crate) open spec fn dfs_inv(c: Component, seen: Seen, items: Seq<ComponentItem>, stack: Seq<ItemLoc>) -> bool {
    let locs = plan_locs(items);
    &&& forall|l: ItemLoc| #[trigger] seen.has(l) <==> (locs.contains(l) || stack.contains(l))
    &&& forall|l: ItemLoc| #[trigger] seen.has(l) ==> c.holds(l)
    &&& forall|l: ItemLoc| #[trigger] locs.contains(l) ==> !stack.contains(l)
    &&& locs.no_duplicates()
    &&& stack.no_duplicates()
    &&& forall|i: int| 0 <= i < items.len() ==> item_ok(c, #[trigger] items[i])
    &&& c.acyclic() ==> deps_first(c, locs)
    &&& c.acyclic() ==> descending(c.rank(), stack)
}

/// Each item of `stack` ranks below the items under it.
pub(crate) open spec fn descending(rank: spec_fn(ItemLoc) -> nat, stack: Seq<ItemLoc>) -> bool {
    forall|a: int, b: int| 0 <= a < b < stack.len() ==> rank(#[trigger] stack[b]) < rank(#[trigger] stack[a])
}

/// The items collected are at most the component's items.
proof fn lemma_seen_bounded(c: Component, seen: Seen)
    requires
        forall|l: ItemLoc| #[trigger] seen.has(l) ==> c.holds(l),
    ensures
        forall|k: ComponentSection| (#[trigger] seen.of(k)).finite(),
        seen.count() <= c.total_items(),
{
    assert forall|k: ComponentSection| (#[trigger] seen.of(k)).finite() && seen.of(k).len() <= c.count_of(k) by {
        assert forall|i: usize| #[trigger] seen.of(k).contains(i) implies i < c.count_of(k) by {
            assert(seen.has(ItemLoc { section: k, idx: i }));
        }
        lemma_bounded_set(seen.of(k), c.count_of(k));
    }
}

/// Collecting one more item, and keeping those collected, counts more.
proof fn lemma_seen_grows(c: Component, before: Seen, after: Seen, l: ItemLoc)
    requires
        forall|m: ItemLoc| #[trigger] after.has(m) ==> c.holds(m),
        forall|m: ItemLoc| #[trigger] before.has(m) ==> after.has(m),
        after.has(l),
        !before.has(l),
    ensures
        before.count() < after.count(),
{
    lemma_seen_bounded(c, after);
    assert forall|k: ComponentSection| #[trigger] before.of(k).len() <= after.of(k).len() by {
        assert forall|i: usize| #[trigger] before.of(k).contains(i) implies after.of(k).contains(i) by {
            assert(before.has(ItemLoc { section: k, idx: i }));
        }
        vstd::set_lib::lemma_len_subset(before.of(k), after.of(k));
    }
    let k = l.section;
    assert(before.of(k).insert(l.idx).subset_of(after.of(k))) by {
        assert forall|i: usize| #[trigger] before.of(k).insert(l.idx).contains(i) implies after.of(k).contains(i) by {
            if i != l.idx {
                assert(before.has(ItemLoc { section: k, idx: i }));
            }
        }
    }
    vstd::set_lib::lemma_len_subset(before.of(k).insert(l.idx), after.of(k));
    vstd::set_lib::lemma_len_subset(before.of(k), before.of(k).insert(l.idx));
    assert(!before.of(k).contains(l.idx));
    assert(before.of(k).insert(l.idx).len() == before.of(k).len() + 1);
}

/// The item a pair `(vector, position)` of index space `space` names.
fn loc_of_exec(sub: SpaceSubtype, space: Space, idx: usize) -> (r: ItemLoc)
    ensures
        r == loc_of(sub, space, idx),
{
    let section = match sub {
        SpaceSubtype::Import => ComponentSection::ComponentImport,
        SpaceSubtype::Export => ComponentSection::ComponentExport,
        SpaceSubtype::Alias => ComponentSection::Alias,
        SpaceSubtype::Main => match space {
            Space::Comp => ComponentSection::Component,
            Space::CompType => ComponentSection::ComponentType,
            Space::CompInst => ComponentSection::ComponentInstance,
            Space::CoreInst => ComponentSection::CoreInstance,
            Space::CoreModule => ComponentSection::Module,
            Space::CoreType => ComponentSection::CoreType,
            _ => ComponentSection::Canon,
        },
    };
    ItemLoc { section, idx }
}

impl Component {
    /// The references the item at `l` makes.
    fn refs_at(&self, l: &ItemLoc) -> (r: Vec<RefKind>)
        requires
            self.holds(*l),
        ensures
            r@ == self.item_refs_at(*l),
    {
        match l.section {
            ComponentSection::Alias => self.alias.items[l.idx].referenced_indices(),
            ComponentSection::ComponentImport => self.imports[l.idx].referenced_indices(),
            ComponentSection::ComponentExport => self.exports[l.idx].referenced_indices(),
            ComponentSection::CoreInstance => self.instances[l.idx].referenced_indices(),
            ComponentSection::ComponentInstance => self.component_instance[l.idx].referenced_indices(),
            ComponentSection::Canon => self.canons.items[l.idx].referenced_indices(),
            ComponentSection::ComponentStartSection => self.start_section[l.idx].referenced_indices(),
            ComponentSection::Component => {
                let mut v: Vec<RefKind> = Vec::new();
                collect_outer_refs(&self.components[l.idx], 1, &mut v);
                proof {
                    assert(v@ =~= self.item_refs_at(*l));
                }
                v
            },
            _ => Vec::new(),
        }
    }

    /// The item a reference of the component's own scope names, or `None`
    /// where it names none.
    fn locate(&self, r: &IndexedRef) -> (res: Option<ItemLoc>)
        requires
            self.wf(),
        ensures
            res matches Some(d) ==> self.resolvable(*r) && d == self.ref_loc(*r) && self.holds(d),
            res is None ==> !self.resolvable(*r),
    {
        let scope = self.index_store.get(&self.space_id);
        match scope.get_space(&r.space) {
            None => None,
            Some(space) => match space.index_from_assumed_id_no_cache(r.index as usize) {
                None => None,
                Some(found) => {
                    proof {
                        assert(self.resolvable(*r));
                        self.lemma_resolvable_within(*r);
                    }
                    Some(loc_of_exec(found.0, r.space, found.1))
                },
            },
        }
    }
}


impl Component {
    /// The number of items of a kind fits in a `usize`.
    proof fn lemma_count_fits(self, k: ComponentSection)
        ensures
            self.count_of(k) <= usize::MAX,
    {
        match k {
            ComponentSection::Module => assert(self.modules.len() == self.modules@.len()),
            ComponentSection::Alias => assert(self.alias.items.len() == self.alias.items@.len()),
            ComponentSection::CoreType => assert(self.core_types.len() == self.core_types@.len()),
            ComponentSection::ComponentType => assert(self.component_types.items.len() == self.component_types.items@.len()),
            ComponentSection::ComponentImport => assert(self.imports.len() == self.imports@.len()),
            ComponentSection::ComponentExport => assert(self.exports.len() == self.exports@.len()),
            ComponentSection::CoreInstance => assert(self.instances.len() == self.instances@.len()),
            ComponentSection::ComponentInstance => assert(self.component_instance.len() == self.component_instance@.len()),
            ComponentSection::Canon => assert(self.canons.items.len() == self.canons.items@.len()),
            ComponentSection::CustomSection => assert(self.custom_sections.len() == self.custom_sections@.len()),
            ComponentSection::ComponentStartSection => assert(self.start_section.len() == self.start_section@.len()),
            ComponentSection::Component => assert(self.components.len() == self.components@.len()),
        }
    }

    /// The position, among the items of `kind`, of the first item of the
    /// `j`-th section: the items of that kind the sections before it
    /// announce.
    fn section_start(&self, j: usize, kind: ComponentSection) -> (r: usize)
        requires
            self.sections_fit(),
            j <= self.sections@.len(),
        ensures
            r == section_total(self.sections@.take(j as int), kind),
    {
        let mut total: usize = 0;
        let mut m: usize = 0;
        while m < j
            invariant
                self.sections_fit(),
                j <= self.sections@.len(),
                m <= j,
                total == section_total(self.sections@.take(m as int), kind),
            decreases j - m,
        {
            proof {
                lemma_section_total_prefix(self.sections@, m + 1, kind);
                assert(self.sections@.take(m + 1).drop_last() =~= self.sections@.take(m as int));
                assert(section_total(self.sections@, kind) <= self.count_of(kind));
                self.lemma_count_fits(kind);
            }
            let (num, k) = self.sections[m];
            if k == kind {
                total = total + num as usize;
            }
            m = m + 1;
        }
        total
    }

    /// The planned item for `l`: a nested component with its own plan, a
    /// scoped type with the plan of its declarations.
    fn plan_item(&self, l: &ItemLoc) -> (it: ComponentItem)
        requires
            self.collectable(),
            self.holds(*l),
        ensures
            it.loc() == *l,
            item_ok(*self, it),
        decreases *self, 0int,
    {
        let idx = l.idx;
        match l.section {
            ComponentSection::Component => {
                proof {
                    assert(decreases_to!(*self => self.components));
                    assert(decreases_to!(*self => self.components@[idx as int]));
                    assert(self.components@[idx as int].collectable());
                }
                let plan = self.components[idx].collect_root();
                ComponentItem::Component { idx, plan }
            },
            ComponentSection::Module => ComponentItem::Module { idx },
            ComponentSection::ComponentType => {
                let subitem_plan = self.component_types.items[idx].collect_subitem();
                ComponentItem::CompType { idx, subitem_plan }
            },
            ComponentSection::ComponentInstance => ComponentItem::CompInst { idx },
            ComponentSection::Canon => ComponentItem::CanonicalFunc { idx },
            ComponentSection::Alias => ComponentItem::Alias { idx },
            ComponentSection::ComponentImport => ComponentItem::Import { idx },
            ComponentSection::ComponentExport => ComponentItem::Export { idx },
            ComponentSection::CoreType => {
                let subitem_plan = self.core_types[idx].collect_subitem();
                ComponentItem::CoreType { idx, subitem_plan }
            },
            ComponentSection::CoreInstance => ComponentItem::Inst { idx },
            ComponentSection::ComponentStartSection => ComponentItem::Start { idx },
            ComponentSection::CustomSection => ComponentItem::CustomSection { idx },
        }
    }

    /// Collects item `l` (which is not collected yet), after the items it
    /// refers to that are not collected yet: `stack` holds the items being
    /// collected, the last of which refers to `l`.
    fn collect_item(
        &self,
        l: &ItemLoc,
        seen: &mut Seen,
        items: &mut Vec<ComponentItem>,
        Ghost(stack): Ghost<Seq<ItemLoc>>,
    )
        requires
            self.collectable(),
            self.holds(*l),
            !old(seen).has(*l),
            dfs_inv(*self, *old(seen), old(items)@, stack),
            stack.len() > 0 ==> self.depends_on(stack.last(), *l),
        ensures
            dfs_inv(*self, *final(seen), final(items)@, stack),
            final(seen).has(*l),
            forall|m: ItemLoc| #[trigger] old(seen).has(m) ==> final(seen).has(m),
            old(items)@.len() <= final(items)@.len(),
            final(items)@.take(old(items)@.len() as int) == old(items)@,
        decreases *self, self.total_items() - old(seen).count(),
    {
        broadcast use vstd::seq_lib::lemma_seq_contains_after_push;
        let ghost st = stack.push(*l);
        let ghost before = *seen;
        seen.insert(l);
        proof {
            let locs = plan_locs(items@);
            assert forall|m: ItemLoc| #[trigger] seen.has(m) <==> (before.has(m) || m == *l) by {}
            assert(!stack.contains(*l));
            assert(!locs.contains(*l));
            assert forall|a: int, b: int| 0 <= a < b < st.len() implies st[a] != st[b] by {
                if b == stack.len() {
                    assert(stack.contains(st[a]));
                }
            }
            if self.acyclic() {
                let rank = self.rank();
                assert(self.ranks(rank));
                assert forall|a: int, b: int| 0 <= a < b < st.len() implies rank(#[trigger] st[b]) < rank(#[trigger] st[a]) by {
                    if b == stack.len() {
                        assert(self.depends_on(stack.last(), *l));
                        assert(rank(*l) < rank(stack.last()));
                        if a < stack.len() - 1 {
                            assert(rank(stack[stack.len() - 1]) < rank(stack[a]));
                        }
                    } else {
                        assert(st[a] == stack[a] && st[b] == stack[b]);
                    }
                }
            }
            lemma_seen_grows(*self, before, *seen, *l);
            lemma_seen_bounded(*self, *seen);
        }
        let refs = self.refs_at(l);
        let mut i: usize = 0;
        while i < refs.len()
            invariant
                self.collectable(),
                self.holds(*l),
                refs@ == self.item_refs_at(*l),
                st == stack.push(*l),
                dfs_inv(*self, *seen, items@, st),
                seen.has(*l),
                forall|m: ItemLoc| #[trigger] old(seen).has(m) ==> seen.has(m),
                old(seen).count() < seen.count(),
                old(items)@.len() <= items@.len(),
                items@.take(old(items)@.len() as int) == old(items)@,
                i <= refs@.len(),
                forall|j: int| 0 <= j < i && self.is_dep_ref(#[trigger] refs@[j]) ==> seen.has(self.ref_loc(refs@[j].ref_)),
            decreases refs.len() - i,
        {
            let k = refs[i];
            if k.ref_.depth.is_curr() {
                match self.locate(&k.ref_) {
                    Some(d) => {
                        if !seen.contains(&d) {
                            let ghost mid = *seen;
                            let ghost mid_items = items@;
                            proof {
                                assert(self.is_dep_ref(self.item_refs_at(*l)[i as int]));
                                assert(self.depends_on(st.last(), d));
                                lemma_seen_bounded(*self, *seen);
                            }
                            self.collect_item(&d, seen, items, Ghost(st));
                            proof {
                                assert forall|m: ItemLoc| #[trigger] old(seen).has(m) implies seen.has(m) by {
                                    assert(mid.has(m));
                                }
                                lemma_seen_grows(*self, mid, *seen, d);
                                assert(items@.take(old(items)@.len() as int) =~= mid_items.take(old(items)@.len() as int));
                            }
                        }
                    },
                    None => {},
                }
            }
            i = i + 1;
        }
        proof {
            lemma_seen_bounded(*self, *seen);
        }
        let ghost pre = items@;
        let it = self.plan_item(l);
        items.push(it);
        proof {
            let locs0 = plan_locs(pre);
            let locs = plan_locs(items@);
            assert(locs =~= locs0.push(*l));
            assert(st.drop_last() =~= stack);
            assert(st.last() == *l);
            assert(!locs0.contains(*l));
            assert forall|m: ItemLoc| #[trigger] seen.has(m) <==> (locs.contains(m) || stack.contains(m)) by {}
            assert forall|m: ItemLoc| #[trigger] locs.contains(m) implies !stack.contains(m) by {
                if m == *l {
                    assert(st[st.len() - 1] == *l);
                    if stack.contains(m) {
                        let a = choose|a: int| 0 <= a < stack.len() && stack[a] == m;
                        assert(st[a] == m);
                    }
                } else {
                    assert(locs0.contains(m));
                }
            }
            assert forall|a: int, b: int| 0 <= a < b < locs.len() implies locs[a] != locs[b] by {
                if b == locs0.len() {
                    assert(locs0.contains(locs[a]));
                } else {
                    assert(locs[a] == locs0[a] && locs[b] == locs0[b]);
                }
            }
            assert forall|a: int, b: int| 0 <= a < b < stack.len() implies stack[a] != stack[b] by {
                assert(st[a] == stack[a] && st[b] == stack[b]);
            }
            assert forall|j: int| 0 <= j < items@.len() implies item_ok(*self, #[trigger] items@[j]) by {
                if j < pre.len() {
                    assert(items@[j] == pre[j]);
                }
            }
            if self.acyclic() {
                let rank = self.rank();
                assert(self.ranks(rank));
                assert forall|p: int, y: ItemLoc|
                    0 <= p < locs.len() && #[trigger] self.depends_on(locs[p], y) implies exists|q: int|
                        0 <= q < p && #[trigger] locs[q] == y by {
                    if p < locs0.len() {
                        assert(locs[p] == locs0[p]);
                        let q = choose|q: int| 0 <= q < p && #[trigger] locs0[q] == y;
                        assert(locs[q] == y);
                    } else {
                        assert(locs[p] == *l);
                        let jj = choose|jj: int|
                            0 <= jj < self.item_refs_at(*l).len() && self.is_dep_ref(#[trigger] self.item_refs_at(*l)[jj])
                                && self.ref_loc(self.item_refs_at(*l)[jj].ref_) == y;
                        assert(self.is_dep_ref(refs@[jj]));
                        assert(seen.has(y));
                        assert(rank(y) < rank(*l));
                        if st.contains(y) {
                            let a = choose|a: int| 0 <= a < st.len() && st[a] == y;
                            if a < st.len() - 1 {
                                assert(rank(st[st.len() - 1]) < rank(st[a]));
                            }
                            assert(false);
                        }
                        assert(locs0.contains(y));
                        let q = choose|q: int| 0 <= q < locs0.len() && locs0[q] == y;
                        assert(locs[q] == y);
                    }
                }
                assert forall|a: int, b: int| 0 <= a < b < stack.len() implies rank(#[trigger] stack[b]) < rank(#[trigger] stack[a]) by {
                    assert(st[a] == stack[a] && st[b] == stack[b]);
                }
            }
            assert(items@.take(old(items)@.len() as int) =~= pre.take(old(items)@.len() as int));
        }
    }

    /// Plans the items of the component in the order of its sections, each
    /// item after the items of the component it refers to; a nested
    /// component with its own plan, a scoped type with the plan of its
    /// declarations.
    pub fn collect_root(&self) -> (r: ComponentPlan)
        requires
            self.collectable(),
        ensures
            plan_ok(*self, r),
        decreases *self, self.total_items() + 1,
    {
        broadcast use vstd::seq_lib::lemma_seq_contains_after_push;
        let mut seen = Seen::new();
        let mut items: Vec<ComponentItem> = Vec::new();
        let ghost empty = Seq::<ItemLoc>::empty();
        proof {
            assert(plan_locs(items@) =~= Seq::<ItemLoc>::empty());
            assert forall|m: ItemLoc| #[trigger] seen.has(m) implies false by {}
        }
        let n = self.sections.len();
        for j in 0..n
            invariant
                n == self.sections@.len(),
                self.collectable(),
                dfs_inv(*self, seen, items@, empty),
                empty == Seq::<ItemLoc>::empty(),
                forall|m: ItemLoc| m.idx < section_total(self.sections@.take(j as int), m.section) ==> #[trigger] seen.has(m),
        {
            let (num, kind) = self.sections[j];
            let start = self.section_start(j, kind);
            proof {
                lemma_section_total_prefix(self.sections@, j + 1, kind);
                assert(self.sections@.take(j + 1).drop_last() =~= self.sections@.take(j as int));
                assert(section_total(self.sections@, kind) <= self.count_of(kind));
                self.lemma_count_fits(kind);
            }
            let mut i: u32 = 0;
            while i < num
                invariant
                    n == self.sections@.len(),
                    j < n,
                    self.sections@[j as int] == (num, kind),
                    self.collectable(),
                    dfs_inv(*self, seen, items@, empty),
                    empty == Seq::<ItemLoc>::empty(),
                    start == section_total(self.sections@.take(j as int), kind),
                    start + num <= self.count_of(kind),
                    self.count_of(kind) <= usize::MAX,
                    i <= num,
                    forall|m: ItemLoc| (m.idx < section_total(self.sections@.take(j as int), m.section)
                        || (m.section == kind && start <= m.idx < start + i)) ==> #[trigger] seen.has(m),
                decreases num - i,
            {
                let l = ItemLoc { section: kind, idx: start + i as usize };
                if !seen.contains(&l) {
                    let ghost before = seen;
                    proof {
                        lemma_seen_bounded(*self, seen);
                    }
                    self.collect_item(&l, &mut seen, &mut items, Ghost(empty));
                    proof {
                        assert forall|m: ItemLoc| (m.idx < section_total(self.sections@.take(j as int), m.section)
                            || (m.section == kind && start <= m.idx < start + i + 1)) implies #[trigger] seen.has(m) by {
                            if m != l {
                                assert(before.has(m));
                            }
                        }
                    }
                }
                i = i + 1;
            }
            proof {
                assert(self.sections@.take(j + 1).last() == (num, kind));
                assert forall|m: ItemLoc| m.idx < section_total(self.sections@.take(j + 1), m.section) implies #[trigger] seen.has(m) by {
                    if m.section != kind {
                        assert(section_total(self.sections@.take(j + 1), m.section) == section_total(self.sections@.take(j as int), m.section));
                    }
                }
            }
        }
        proof {
            assert(self.sections@.take(n as int) =~= self.sections@);
            let locs = plan_locs(items@);
            assert forall|i: int| 0 <= i < locs.len() implies self.holds(#[trigger] locs[i]) by {
                assert(locs.contains(locs[i]));
                assert(seen.has(locs[i]));
            }
            assert forall|m: ItemLoc| m.idx < section_total(self.sections@, m.section) implies #[trigger] locs.contains(m) by {
                assert(seen.has(m));
            }
        }
        ComponentPlan { items }
    }
}


// ---------------------------------------------------------------------
// Every component a binary parses into can be planned.
// ---------------------------------------------------------------------

impl Built {
    /// The number of items of `kind` described.
    pub open spec fn count_of(self, kind: ComponentSection) -> nat {
        match kind {
            ComponentSection::Module => self.modules.len(),
            ComponentSection::Alias => self.alias.len(),
            ComponentSection::CoreType => self.core_types.len(),
            ComponentSection::ComponentType => self.component_types.len(),
            ComponentSection::ComponentImport => self.imports.len(),
            ComponentSection::ComponentExport => self.exports.len(),
            ComponentSection::CoreInstance => self.instances.len(),
            ComponentSection::ComponentInstance => self.component_instance.len(),
            ComponentSection::Canon => self.canons.len(),
            ComponentSection::CustomSection => self.custom_sections.len(),
            ComponentSection::ComponentStartSection => self.start_section.len(),
            ComponentSection::Component => self.components.len(),
        }
    }

    /// The sections announce no more items of a kind than are described,
    /// here and in the nested components.
    pub open spec fn fits(self) -> bool
        decreases self,
    {
        &&& forall|k: ComponentSection| #[trigger] section_total(self.sections, k) <= self.count_of(k)
        &&& forall|i: int| 0 <= i < self.components.len() ==> (#[trigger] self.components[i]).fits()
    }
}

/// One more section entry adds its count to the total of its kind.
proof fn lemma_section_total_push(s: Seq<(u32, ComponentSection)>, e: (u32, ComponentSection), k: ComponentSection)
    ensures
        section_total(s.push(e), k) == section_total(s, k) + if e.1 == k {
            e.0 as nat
        } else {
            0
        },
{
    assert(s.push(e).drop_last() =~= s);
}

/// A count of items, cut to 32 bits, is at most the count.
proof fn lemma_cut_count(n: nat)
    ensures
        (n as u32) as nat <= n,
{
    if n > u32::MAX {
    } else {
        assert((n as u32) as nat == n);
    }
}

/// A section payload keeps a description within its sections.
proof fn lemma_add_payload_fits(b: Built, p: Payload)
    requires
        b.fits(),
    ensures
        b.add_payload(p).fits(),
{
    let b2 = b.add_payload(p);
    assert(b2.components == b.components);
    assert forall|k: ComponentSection| #[trigger] section_total(b2.sections, k) <= b2.count_of(k) by {
        match payload_section(p) {
            Some(e) => {
                assert(b2.sections == b.sections.push(e));
                lemma_section_total_push(b.sections, e, k);
                match p {
                    Payload::ComponentImports(v) => lemma_cut_count(v@.len()),
                    Payload::ComponentExports(v) => lemma_cut_count(v@.len()),
                    Payload::CoreInstances(v) => lemma_cut_count(v@.len()),
                    Payload::CoreTypes(v) => lemma_cut_count(v@.len()),
                    Payload::ComponentTypes(v) => lemma_cut_count(v@.len()),
                    Payload::ComponentInstances(v) => lemma_cut_count(v@.len()),
                    Payload::Aliases(v) => lemma_cut_count(v@.len()),
                    Payload::Canons(v) => lemma_cut_count(v@.len()),
                    _ => {},
                }
            },
            None => {
                assert(b2.sections == b.sections);
            },
        }
    }
}

/// Building on a description within its sections stays within them.
proof fn lemma_parse_fits(rest: Seq<Payload>, b: Built)
    requires
        b.fits(),
        parse_spec(rest, b) is Ok,
    ensures
        parse_spec(rest, b)->Ok_0.fits(),
    decreases rest.len(),
{
    if rest.len() > 0 {
        let r = rest.drop_last();
        lemma_nested_split(r);
        match rest.last() {
            Payload::End => {},
            Payload::Version => {
                lemma_parse_fits(r, b);
            },
            Payload::ModuleSection(m) => {
                let b2 = b.add_module(m);
                assert forall|k: ComponentSection| #[trigger] section_total(b2.sections, k) <= b2.count_of(k) by {
                    lemma_section_total_push(b.sections, (1u32, ComponentSection::Module), k);
                }
                assert(b2.components == b.components);
                lemma_parse_fits(after_nested(r), b2);
            },
            Payload::ComponentSection => {
                assert(Built::empty().fits()) by {
                    assert forall|k: ComponentSection| #[trigger] section_total(Built::empty().sections, k)
                        <= Built::empty().count_of(k) by {}
                }
                lemma_parse_fits(nested_part(r), Built::empty());
                let sub = parse_spec(nested_part(r), Built::empty())->Ok_0;
                let b2 = b.add_component(sub);
                assert forall|k: ComponentSection| #[trigger] section_total(b2.sections, k) <= b2.count_of(k) by {
                    lemma_section_total_push(b.sections, (1u32, ComponentSection::Component), k);
                }
                assert forall|i: int| 0 <= i < b2.components.len() implies (#[trigger] b2.components[i]).fits() by {
                    if i < b.components.len() {
                        assert(b2.components[i] == b.components[i]);
                    }
                }
                lemma_parse_fits(after_nested(r), b2);
            },
            Payload::UnknownSection { .. } => {},
            Payload::Other(_) => {},
            Payload::Malformed(_) => {},
            p => {
                lemma_add_payload_fits(b, p);
                lemma_parse_fits(r, b.add_payload(p));
            },
        }
    }
}

/// A component that a description within its sections describes can be
/// planned.
proof fn lemma_realizes_collectable(c: Component, b: Built)
    requires
        c.realizes(b),
        b.fits(),
    ensures
        c.collectable(),
    decreases b,
{
    lemma_realizes_deep_wf(c, b);
    assert forall|k: ComponentSection| #[trigger] section_total(c.sections@, k) <= c.count_of(k) by {
        assert(section_total(b.sections, k) <= b.count_of(k));
    }
    assert forall|i: int| 0 <= i < c.components@.len() implies (#[trigger] c.components@[i]).collectable() by {
        assert(c.components@[i].realizes(b.components[i]));
        assert(b.components[i].fits());
        lemma_realizes_collectable(c.components@[i], b.components[i]);
    }
}

/// Every component that parsing a binary gives can be planned: its
/// sections announce no more items of a kind than it holds, and so do
/// those of its nested components.
pub proof fn law_parsed_collectable(ps: Seq<Payload>, c: Component)
    requires
        parse_result(ps, Ok(c)),
    ensures
        c.collectable(),
{
    assert(Built::empty().fits()) by {
        assert forall|k: ComponentSection| #[trigger] section_total(Built::empty().sections, k)
            <= Built::empty().count_of(k) by {}
    }
    lemma_parse_fits(ps.reverse(), Built::empty());
    let b = parse_spec(ps.reverse(), Built::empty())->Ok_0;
    lemma_realizes_collectable(c, b);
}


// ---------------------------------------------------------------------
// The plan of a parsed component lists every item.
// ---------------------------------------------------------------------

/// A section payload holds no more items than a section entry can count.
pub open spec fn payload_counted(p: Payload) -> bool {
    match p {
        Payload::ComponentImports(v) => v@.len() <= u32::MAX,
        Payload::ComponentExports(v) => v@.len() <= u32::MAX,
        Payload::CoreInstances(v) => v@.len() <= u32::MAX,
        Payload::CoreTypes(v) => v@.len() <= u32::MAX,
        Payload::ComponentTypes(v) => v@.len() <= u32::MAX,
        Payload::ComponentInstances(v) => v@.len() <= u32::MAX,
        Payload::Aliases(v) => v@.len() <= u32::MAX,
        Payload::Canons(v) => v@.len() <= u32::MAX,
        _ => true,
    }
}

/// Every payload of `s` holds no more items than a section entry can
/// count.
pub open spec fn all_counted(s: Seq<Payload>) -> bool {
    forall|i: int| 0 <= i < s.len() ==> payload_counted(#[trigger] s[i])
}

impl Built {
    /// The sections announce exactly the items of each kind described,
    /// here and in the nested components.
    pub open spec fn exact(self) -> bool
        decreases self,
    {
        &&& forall|k: ComponentSection| #[trigger] section_total(self.sections, k) == self.count_of(k)
        &&& forall|i: int| 0 <= i < self.components.len() ==> (#[trigger] self.components[i]).exact()
    }
}

/// The parts a nested module or component splits a payload stack into
/// hold only counted payloads when the stack does.
proof fn lemma_nested_counted(r: Seq<Payload>)
    requires
        all_counted(r),
    ensures
        all_counted(nested_part(r)),
        all_counted(after_nested(r)),
{
    let e = closing_end(r, r.len() - 1, 0);
    lemma_closing_end_bounds(r, r.len() - 1, 0);
    if e >= 0 {
        assert forall|i: int| 0 <= i < nested_part(r).len() implies payload_counted(#[trigger] nested_part(r)[i]) by {
            assert(nested_part(r)[i] == r[e + 1 + i]);
        }
        assert forall|i: int| 0 <= i < after_nested(r).len() implies payload_counted(#[trigger] after_nested(r)[i]) by {
            assert(after_nested(r)[i] == r[i]);
        }
    }
}

/// A section payload of counted items keeps a description exact.
proof fn lemma_add_payload_exact(b: Built, p: Payload)
    requires
        b.exact(),
        payload_counted(p),
    ensures
        b.add_payload(p).exact(),
{
    let b2 = b.add_payload(p);
    assert(b2.components == b.components);
    assert forall|k: ComponentSection| #[trigger] section_total(b2.sections, k) == b2.count_of(k) by {
        match payload_section(p) {
            Some(e) => {
                assert(b2.sections == b.sections.push(e));
                lemma_section_total_push(b.sections, e, k);
            },
            None => {
                assert(b2.sections == b.sections);
            },
        }
    }
}

/// Building on an exact description from counted payloads stays exact.
proof fn lemma_parse_exact(rest: Seq<Payload>, b: Built)
    requires
        b.exact(),
        all_counted(rest),
        parse_spec(rest, b) is Ok,
    ensures
        parse_spec(rest, b)->Ok_0.exact(),
    decreases rest.len(),
{
    if rest.len() > 0 {
        let r = rest.drop_last();
        lemma_nested_split(r);
        assert(all_counted(r)) by {
            assert forall|i: int| 0 <= i < r.len() implies payload_counted(#[trigger] r[i]) by {
                assert(r[i] == rest[i]);
            }
        }
        lemma_nested_counted(r);
        assert(payload_counted(rest.last()));
        match rest.last() {
            Payload::End => {},
            Payload::Version => {
                lemma_parse_exact(r, b);
            },
            Payload::ModuleSection(m) => {
                let b2 = b.add_module(m);
                assert forall|k: ComponentSection| #[trigger] section_total(b2.sections, k) == b2.count_of(k) by {
                    lemma_section_total_push(b.sections, (1u32, ComponentSection::Module), k);
                }
                assert(b2.components == b.components);
                lemma_parse_exact(after_nested(r), b2);
            },
            Payload::ComponentSection => {
                assert(Built::empty().exact()) by {
                    assert forall|k: ComponentSection| #[trigger] section_total(Built::empty().sections, k)
                        == Built::empty().count_of(k) by {}
                }
                lemma_parse_exact(nested_part(r), Built::empty());
                let sub = parse_spec(nested_part(r), Built::empty())->Ok_0;
                let b2 = b.add_component(sub);
                assert forall|k: ComponentSection| #[trigger] section_total(b2.sections, k) == b2.count_of(k) by {
                    lemma_section_total_push(b.sections, (1u32, ComponentSection::Component), k);
                }
                assert forall|i: int| 0 <= i < b2.components.len() implies (#[trigger] b2.components[i]).exact() by {
                    if i < b.components.len() {
                        assert(b2.components[i] == b.components[i]);
                    }
                }
                lemma_parse_exact(after_nested(r), b2);
            },
            Payload::UnknownSection { .. } => {},
            Payload::Other(_) => {},
            Payload::Malformed(_) => {},
            p => {
                lemma_add_payload_exact(b, p);
                lemma_parse_exact(r, b.add_payload(p));
            },
        }
    }
}

/// The plan of a component that parsing a binary gives lists every item
/// of the component, where no section of the binary holds more items than
/// a section entry can count.
pub proof fn law_parsed_plan_is_complete(ps: Seq<Payload>, c: Component, p: ComponentPlan)
    requires
        parse_result(ps, Ok(c)),
        all_counted(ps),
        plan_ok(c, p),
    ensures
        forall|l: ItemLoc| c.holds(l) ==> #[trigger] plan_locs(p.items@).contains(l),
{
    assert(Built::empty().exact()) by {
        assert forall|k: ComponentSection| #[trigger] section_total(Built::empty().sections, k)
            == Built::empty().count_of(k) by {}
    }
    assert(all_counted(ps.reverse())) by {
        assert forall|i: int| 0 <= i < ps.reverse().len() implies payload_counted(#[trigger] ps.reverse()[i]) by {
            assert(ps.reverse()[i] == ps[ps.len() - 1 - i]);
        }
    }
    lemma_parse_exact(ps.reverse(), Built::empty());
    let b = parse_spec(ps.reverse(), Built::empty())->Ok_0;
    assert forall|l: ItemLoc| c.holds(l) implies #[trigger] plan_locs(p.items@).contains(l) by {
        assert(section_total(b.sections, l.section) == b.count_of(l.section));
        assert(section_total(c.sections@, l.section) == c.count_of(l.section));
    }
}


// ---------------------------------------------------------------------
// Adding an item keeps a component plannable.
// ---------------------------------------------------------------------

/// Counting one more item of kind `kind` adds one to the total of that
/// kind only.
proof fn lemma_section_total_merge(s: Seq<(u32, ComponentSection)>, kind: ComponentSection, k: ComponentSection)
    requires
        section_room(s, kind),
    ensures
        section_total(merge_section(s, kind), k) == section_total(s, k) + if k == kind {
            1nat
        } else {
            0nat
        },
{
    if s.len() > 0 && s.last().1 == kind {
        let m = merge_section(s, kind);
        assert(m.drop_last() =~= s.drop_last());
        assert(m.last() == ((s.last().0 + 1) as u32, kind));
    } else {
        lemma_section_total_push(s, (1u32, kind), k);
    }
}

/// Adding one item of a kind other than a nested component, to a component
/// that can be planned, leaves one that can be planned.
pub proof fn law_add_keeps_collectable(
    old: Component,
    new: Component,
    sp: Space,
    sect: ComponentSection,
    idx: usize,
    id: u32,
)
    requires
        old.collectable(),
        section_room(old.sections@, sect),
        new.grew(old, sp, sect, idx, id),
        sect != ComponentSection::Component,
        new.count_of(sect) == old.count_of(sect) + 1,
    ensures
        new.collectable(),
{
    assert forall|k: ComponentSection| #[trigger] section_total(new.sections@, k) <= new.count_of(k) by {
        lemma_section_total_merge(old.sections@, sect, k);
        assert(section_total(old.sections@, k) <= old.count_of(k));
        if k != sect {
            assert(new.count_of(k) == old.count_of(k));
        }
    }
    assert(new.components@ == old.components@);
    assert forall|i: int| 0 <= i < new.components@.len() implies (#[trigger] new.components@[i]).collectable() by {
        assert(old.components@[i].collectable());
    }
}

/// In every plan of a component in which no item depends on itself, a
/// core instance that instantiates a module comes after the item its
/// module index names in the component's own scope (the module, or the
/// import or alias that brings it in); a component instance that
/// instantiates a component comes after the item its component index
/// names.
pub proof fn law_instance_planned_after_what_it_instantiates(c: Component, p: ComponentPlan, k: int)
    requires
        plan_ok(c, p),
        c.acyclic(),
        0 <= k < p.items@.len(),
    ensures
        ({
            let x = p.items@[k].loc();
            let m = IndexedRef {
                depth: Depth::at_level(0),
                space: Space::CoreModule,
                index: c.instances@[x.idx as int]->module_index,
            };
            x.section == ComponentSection::CoreInstance && c.instances@[x.idx as int] is Instantiate && c.resolvable(m)
                ==> exists|j: int| 0 <= j < k && #[trigger] p.items@[j].loc() == c.ref_loc(m)
        }),
        ({
            let x = p.items@[k].loc();
            let m = IndexedRef {
                depth: Depth::at_level(0),
                space: Space::Comp,
                index: c.component_instance@[x.idx as int]->component_index,
            };
            x.section == ComponentSection::ComponentInstance && c.component_instance@[x.idx as int] is Instantiate
                && c.resolvable(m) ==> exists|j: int| 0 <= j < k && #[trigger] p.items@[j].loc() == c.ref_loc(m)
        }),
{
    Depth::lemma_at_level(0);
    let locs = plan_locs(p.items@);
    let x = p.items@[k].loc();
    assert(locs[k] == x);
    assert(c.holds(locs[k]));
    if x.section == ComponentSection::CoreInstance && c.instances@[x.idx as int] is Instantiate {
        let m = IndexedRef {
            depth: Depth::at_level(0),
            space: Space::CoreModule,
            index: c.instances@[x.idx as int]->module_index,
        };
        if c.resolvable(m) {
            let refs = c.item_refs_at(x);
            assert(refs[0].ref_ == m);
            assert(c.is_dep_ref(refs[0]));
            assert(c.depends_on(locs[k], c.ref_loc(m)));
            let j = choose|j: int| 0 <= j < k && #[trigger] locs[j] == c.ref_loc(m);
            assert(p.items@[j].loc() == locs[j]);
        }
    }
    if x.section == ComponentSection::ComponentInstance && c.component_instance@[x.idx as int] is Instantiate {
        let m = IndexedRef {
            depth: Depth::at_level(0),
            space: Space::Comp,
            index: c.component_instance@[x.idx as int]->component_index,
        };
        if c.resolvable(m) {
            let refs = c.item_refs_at(x);
            assert(refs[0].ref_ == m);
            assert(c.is_dep_ref(refs[0]));
            assert(c.depends_on(locs[k], c.ref_loc(m)));
            let j = choose|j: int| 0 <= j < k && #[trigger] locs[j] == c.ref_loc(m);
            assert(p.items@[j].loc() == locs[j]);
        }
    }
}

/// An item of a kind that has a vector of its own takes its index in a
/// space whose main vector is that same vector: a reference to it is read
/// back as an item of its own section, at its own position. So it is for
/// core instances, component instances, modules, core types, component
/// types and canonical functions (which are component or core functions).
pub proof fn law_item_space_matches_its_section(
    i: Instance,
    ci: ComponentInstance,
    m: Module,
    ct: CoreType,
    t: ComponentType,
    f: CanonicalFunction,
    idx: usize,
)
    ensures
        loc_of(SpaceSubtype::Main, i.space_of(), idx) == (ItemLoc { section: ComponentSection::CoreInstance, idx }),
        loc_of(SpaceSubtype::Main, ci.space_of(), idx) == (ItemLoc {
            section: ComponentSection::ComponentInstance,
            idx,
        }),
        loc_of(SpaceSubtype::Main, m.space_of(), idx) == (ItemLoc { section: ComponentSection::Module, idx }),
        loc_of(SpaceSubtype::Main, ct.space_of(), idx) == (ItemLoc { section: ComponentSection::CoreType, idx }),
        loc_of(SpaceSubtype::Main, t.space_of(), idx) == (ItemLoc { section: ComponentSection::ComponentType, idx }),
        loc_of(SpaceSubtype::Main, f.space_of(), idx) == (ItemLoc { section: ComponentSection::Canon, idx }),
        f.space_of() == Space::CompFunc || f.space_of() == Space::CoreFunc,
{
}

} // verus!
