//! Resolving references of a component to the items they name.

use vstd::prelude::*;
use crate::idx_spaces::{Space, SpaceSubtype};
use crate::items::{
    ComponentImport, ComponentExport, Instance, CoreType, ComponentType, ComponentInstance,
    ComponentAlias, CanonicalFunction, Module, InstanceTypeDeclaration,
};
use crate::component::{Component, vec_len, positions_within};
use crate::refs::{IndexedRef, RefKind, GetItemRef, GetTypeRefs};

verus! {

/// The item a reference resolves to, with the index the reference used.
#[derive(Debug)]
pub enum ResolvedItem<'s> {
    Component(u32, &'s Component),
    Module(u32, &'s Module),
    CompType(u32, &'s ComponentType),
    CompInst(u32, &'s ComponentInstance),
    CoreInst(u32, &'s Instance),
    CoreType(u32, &'s CoreType),
    Func(u32, &'s CanonicalFunction),
    Export(u32, &'s ComponentExport),
    Import(u32, &'s ComponentImport),
    Alias(u32, &'s ComponentAlias),
    /// An export declaration of an instance type body that gives a type.
    InstTyDeclExport(u32, &'s InstanceTypeDeclaration),
}

impl Component {
    /// The item at position `idx` of the vector `sub` of index space
    /// `r.space`, as reference `r` resolves to it.
    pub open spec fn item_at_spec<'s>(&'s self, r: IndexedRef, sub: SpaceSubtype, idx: int) -> ResolvedItem<'s> {
        match sub {
            SpaceSubtype::Export => ResolvedItem::Export(r.index, &self.exports@[idx]),
            SpaceSubtype::Import => ResolvedItem::Import(r.index, &self.imports@[idx]),
            SpaceSubtype::Alias => ResolvedItem::Alias(r.index, &self.alias.items@[idx]),
            SpaceSubtype::Main => match r.space {
                Space::Comp => ResolvedItem::Component(r.index, &self.components@[idx]),
                Space::CompType => ResolvedItem::CompType(r.index, &self.component_types.items@[idx]),
                Space::CompInst => ResolvedItem::CompInst(r.index, &self.component_instance@[idx]),
                Space::CoreInst => ResolvedItem::CoreInst(r.index, &self.instances@[idx]),
                Space::CoreModule => ResolvedItem::Module(r.index, &self.modules@[idx]),
                Space::CoreType => ResolvedItem::CoreType(r.index, &self.core_types@[idx]),
                _ => ResolvedItem::Func(r.index, &self.canons.items@[idx]),
            },
        }
    }

    /// The item at position `idx` of the vector `subtype` of the index
    /// space of `ref_`: the export, import or alias vector, or the main
    /// vector of that space.
    pub fn item_at<'s>(&'s self, ref_: &IndexedRef, subtype: SpaceSubtype, idx: usize) -> (r: ResolvedItem<'s>)
        requires
            idx < vec_len(ref_.space, subtype, self.lens()),
        ensures
            r == self.item_at_spec(*ref_, subtype, idx as int),
    {
        match subtype {
            SpaceSubtype::Main => match ref_.space {
                Space::Comp => ResolvedItem::Component(ref_.index, &self.components[idx]),
                Space::CompType => ResolvedItem::CompType(ref_.index, &self.component_types.items[idx]),
                Space::CompInst => ResolvedItem::CompInst(ref_.index, &self.component_instance[idx]),
                Space::CoreInst => ResolvedItem::CoreInst(ref_.index, &self.instances[idx]),
                Space::CoreModule => ResolvedItem::Module(ref_.index, &self.modules[idx]),
                Space::CoreType => ResolvedItem::CoreType(ref_.index, &self.core_types[idx]),
                Space::CompFunc | Space::CoreFunc => ResolvedItem::Func(ref_.index, &self.canons.items[idx]),
                _ => {
                    proof {
                        assert(false);
                    }
                    ResolvedItem::Func(ref_.index, &self.canons.items[idx])
                },
            },
            SpaceSubtype::Export => ResolvedItem::Export(ref_.index, &self.exports[idx]),
            SpaceSubtype::Import => ResolvedItem::Import(ref_.index, &self.imports[idx]),
            SpaceSubtype::Alias => ResolvedItem::Alias(ref_.index, &self.alias.items[idx]),
        }
    }
}


impl Component {
    /// `r` names an item of this component's own scope.
    pub open spec fn resolvable(self, r: IndexedRef) -> bool {
        &&& r.space != Space::NA
        &&& self.scope().space(r.space).lookup(r.index as usize) is Some
    }

    /// The item `r` names in this component's own scope.
    pub open spec fn resolve_spec<'s>(&'s self, r: IndexedRef) -> ResolvedItem<'s> {
        let loc = self.scope().space(r.space).lookup(r.index as usize).unwrap();
        self.item_at_spec(r, loc.0, loc.1 as int)
    }

    /// Where `r` is found, it lies inside its item vector.
    pub(crate) proof fn lemma_resolvable_within(self, r: IndexedRef)
        requires
            self.wf(),
            self.resolvable(r),
        ensures
            ({
                let loc = self.scope().space(r.space).lookup(r.index as usize).unwrap();
                loc.1 < vec_len(r.space, loc.0, self.lens())
            }),
    {
        let sp = self.scope().space(r.space);
        let id = r.index as usize;
        assert(sp.cache() == Map::<usize, (SpaceSubtype, usize, Option<usize>)>::empty());
        assert(sp.is_assumed(id));
        let (sub, idx) = choose|sub: SpaceSubtype, idx: usize| #[trigger] sp.holds(id, sub, idx);
        assert(sp.holds(id, sub, idx));
        assert(sp.id_map(sub).contains_key(idx));
    }

    /// Resolves a reference of this component's own scope (depth 0) to the
    /// item it names, using the index spaces built when the component was
    /// parsed or grown.
    pub fn resolve<'s>(&'s self, ref_: &IndexedRef) -> (r: ResolvedItem<'s>)
        requires
            self.wf(),
            self.resolvable(*ref_),
        ensures
            r == self.resolve_spec(*ref_),
    {
        proof {
            self.lemma_resolvable_within(*ref_);
        }
        let (subtype, idx, _subvec_idx) = self.index_store.index_from_assumed_id_no_cache(&self.space_id, ref_);
        self.item_at(ref_, subtype, idx)
    }

    /// Resolves a reference of this component's own scope, as
    /// [`Component::resolve`] does, or answers `None` where it names no
    /// item of the scope.
    pub fn try_resolve<'s>(&'s self, ref_: &IndexedRef) -> (r: Option<ResolvedItem<'s>>)
        requires
            self.wf(),
        ensures
            r == (if self.resolvable(*ref_) {
                Some(self.resolve_spec(*ref_))
            } else {
                None
            }),
    {
        let scope = self.index_store.get(&self.space_id);
        match scope.get_space(&ref_.space) {
            None => None,
            Some(space) => match space.index_from_assumed_id_no_cache(ref_.index as usize) {
                None => None,
                Some(_) => {
                    proof {
                        assert(self.resolvable(*ref_));
                    }
                    Some(self.resolve(ref_))
                },
            },
        }
    }
}

/// A reference of a component's own scope names the item at the position
/// that holds its index in its index space: the export, import or alias
/// at that position, or, in the main vector, the item of the space's own
/// kind there (component, type, instance, module or canonical function).
/// The reference resolves, the position lies in its vector, and the answer
/// keeps the reference's index.
pub proof fn law_resolve_names_item_holding_index(c: &Component, r: IndexedRef, sub: SpaceSubtype, idx: usize)
    requires
        c.wf(),
        r.space != Space::NA,
        c.scope().space(r.space).holds(r.index as usize, sub, idx),
    ensures
        c.resolvable(r),
        idx < vec_len(r.space, sub, c.lens()),
        sub == SpaceSubtype::Export ==> c.resolve_spec(r) == ResolvedItem::Export(r.index, &c.exports@[idx as int]),
        sub == SpaceSubtype::Import ==> c.resolve_spec(r) == ResolvedItem::Import(r.index, &c.imports@[idx as int]),
        sub == SpaceSubtype::Alias ==> c.resolve_spec(r) == ResolvedItem::Alias(r.index, &c.alias.items@[idx as int]),
        sub == SpaceSubtype::Main && r.space == Space::Comp ==> c.resolve_spec(r) == ResolvedItem::Component(
            r.index,
            &c.components@[idx as int],
        ),
        sub == SpaceSubtype::Main && r.space == Space::CompType ==> c.resolve_spec(r) == ResolvedItem::CompType(
            r.index,
            &c.component_types.items@[idx as int],
        ),
        sub == SpaceSubtype::Main && r.space == Space::CompInst ==> c.resolve_spec(r) == ResolvedItem::CompInst(
            r.index,
            &c.component_instance@[idx as int],
        ),
        sub == SpaceSubtype::Main && r.space == Space::CoreInst ==> c.resolve_spec(r) == ResolvedItem::CoreInst(
            r.index,
            &c.instances@[idx as int],
        ),
        sub == SpaceSubtype::Main && r.space == Space::CoreModule ==> c.resolve_spec(r) == ResolvedItem::Module(
            r.index,
            &c.modules@[idx as int],
        ),
        sub == SpaceSubtype::Main && r.space == Space::CoreType ==> c.resolve_spec(r) == ResolvedItem::CoreType(
            r.index,
            &c.core_types@[idx as int],
        ),
        sub == SpaceSubtype::Main && (r.space == Space::CompFunc || r.space == Space::CoreFunc) ==> c.resolve_spec(r)
            == ResolvedItem::Func(r.index, &c.canons.items@[idx as int]),
{
    let sp = c.scope().space(r.space);
    let id = r.index as usize;
    assert(sp.cache() == Map::<usize, (SpaceSubtype, usize, Option<usize>)>::empty());
    assert(sp.wf());
    assert(sp.is_assumed(id));
    let (s2, i2) = choose|s2: SpaceSubtype, i2: usize| #[trigger] sp.holds(id, s2, i2);
    assert(sp.holds(id, s2, i2));
    assert(s2 == sub && i2 == idx);
    assert(sp.lookup(id).unwrap().0 == sub && sp.lookup(id).unwrap().1 == idx);
    assert(c.resolvable(r));
    c.lemma_resolvable_within(r);
}

/// The position of the first item of `names` named `name`.
pub open spec fn first_named(names: Seq<Seq<char>>, name: Seq<char>) -> Option<int>
    decreases names.len(),
{
    if names.len() == 0 {
        None
    } else if names[0] == name {
        Some(0)
    } else {
        match first_named(names.drop_first(), name) {
            Some(i) => Some(i + 1),
            None => None,
        }
    }
}

/// The first named item is named so, and none before it.
proof fn lemma_first_named(names: Seq<Seq<char>>, name: Seq<char>)
    ensures
        match first_named(names, name) {
            Some(i) => 0 <= i < names.len() && names[i] == name && forall|j: int| 0 <= j < i ==> names[j] != name,
            None => forall|j: int| 0 <= j < names.len() ==> names[j] != name,
        },
    decreases names.len(),
{
    if names.len() > 0 {
        lemma_first_named(names.drop_first(), name);
        if names[0] != name {
            match first_named(names.drop_first(), name) {
                Some(i) => {
                    assert forall|j: int| 0 <= j < i + 1 implies names[j] != name by {
                        if j > 0 {
                            assert(names[j] == names.drop_first()[j - 1]);
                        }
                    }
                },
                None => {
                    assert forall|j: int| 0 <= j < names.len() implies names[j] != name by {
                        if j > 0 {
                            assert(names[j] == names.drop_first()[j - 1]);
                        }
                    }
                },
            }
        }
    }
}

/// The names of the imports.
pub open spec fn import_names(imports: Seq<ComponentImport>) -> Seq<Seq<char>> {
    imports.map_values(|i: ComponentImport| i.name@)
}

/// The names of the exports.
pub open spec fn export_names(exports: Seq<ComponentExport>) -> Seq<Seq<char>> {
    exports.map_values(|e: ComponentExport| e.name@)
}

/// Finds the position of the first of `names` equal to `name`.
fn find_first(names: &Vec<String>, name: &String) -> (r: Option<usize>)
    ensures
        r == (match first_named(names@.map_values(|s: String| s@), name@) {
            Some(i) => Some(i as usize),
            None => None::<usize>,
        }),
{
    let ghost ns = names@.map_values(|s: String| s@);
    proof {
        lemma_first_named(ns, name@);
    }
    for i in 0..names.len()
        invariant
            ns == names@.map_values(|s: String| s@),
            forall|j: int| 0 <= j < i ==> ns[j] != name@,
            match first_named(ns, name@) {
                Some(k) => 0 <= k < ns.len() && ns[k] == name@ && forall|j: int| 0 <= j < k ==> ns[j] != name@,
                None => forall|j: int| 0 <= j < ns.len() ==> ns[j] != name@,
            },
    {
        if names[i] == *name {
            proof {
                assert(ns[i as int] == name@);
                match first_named(ns, name@) {
                    Some(k) => {
                        if k < i {
                            assert(ns[k] != name@);
                        } else if k > i {
                            assert(ns[i as int] != name@);
                        }
                    },
                    None => {
                        assert(ns[i as int] != name@);
                    },
                }
            }
            return Some(i);
        }
    }
    proof {
        match first_named(ns, name@) {
            Some(k) => {
                assert(ns[k] != name@);
            },
            None => {},
        }
    }
    None
}

impl Component {
    /// The position of the first import named `name`.
    pub open spec fn first_import_named(self, name: Seq<char>) -> Option<int> {
        first_named(import_names(self.imports@), name)
    }

    /// The position of the first export named `name`.
    pub open spec fn first_export_named(self, name: Seq<char>) -> Option<int> {
        first_named(export_names(self.exports@), name)
    }

    /// The first type reference the import at `i` carries, if any.
    pub open spec fn import_type_ref(self, i: int) -> Option<RefKind> {
        let refs = self.imports@[i].spec_type_refs();
        if refs.len() > 0 {
            Some(refs[0])
        } else {
            None
        }
    }

    /// The position of the first import named `name`.
    fn find_import(&self, name: &String) -> (r: Option<usize>)
        ensures
            r == (match self.first_import_named(name@) {
                Some(i) => Some(i as usize),
                None => None::<usize>,
            }),
    {
        let mut names: Vec<String> = Vec::new();
        for i in 0..self.imports.len()
            invariant
                names@.map_values(|s: String| s@) =~= import_names(self.imports@.take(i as int)),
        {
            names.push(self.imports[i].name.clone());
            proof {
                assert(import_names(self.imports@.take(i + 1)) =~= import_names(self.imports@.take(i as int)).push(
                    self.imports@[i as int].name@,
                ));
            }
        }
        proof {
            assert(self.imports@.take(self.imports@.len() as int) =~= self.imports@);
        }
        find_first(&names, name)
    }

    /// The position of the first export named `name`.
    fn find_export(&self, name: &String) -> (r: Option<usize>)
        ensures
            r == (match self.first_export_named(name@) {
                Some(i) => Some(i as usize),
                None => None::<usize>,
            }),
    {
        let mut names: Vec<String> = Vec::new();
        for i in 0..self.exports.len()
            invariant
                names@.map_values(|s: String| s@) =~= export_names(self.exports@.take(i as int)),
        {
            names.push(self.exports[i].name.clone());
            proof {
                assert(export_names(self.exports@.take(i + 1)) =~= export_names(self.exports@.take(i as int)).push(
                    self.exports@[i as int].name@,
                ));
            }
        }
        proof {
            assert(self.exports@.take(self.exports@.len() as int) =~= self.exports@);
        }
        find_first(&names, name)
    }

    /// The position of the first import named `name`.
    pub(crate) fn first_import_pos(&self, name: &str) -> (r: Option<usize>)
        ensures
            r matches Some(i) ==> i < self.imports@.len() && self.first_import_named(name@) == Some(i as int),
            r is None ==> self.first_import_named(name@) is None,
    {
        let owned = name.to_owned();
        let found = self.find_import(&owned);
        let n = self.imports.len();
        proof {
            lemma_first_named(import_names(self.imports@), name@);
            assert(owned@ == name@);
            match self.first_import_named(owned@) {
                Some(k) => {
                    assert(0 <= k < import_names(self.imports@).len());
                    assert(import_names(self.imports@).len() == self.imports@.len());
                    assert(found == Some(k as usize));
                    assert(k as usize as int == k);
                },
                None => {},
            }
        }
        found
    }

    /// The position of the first export named `name`.
    pub(crate) fn first_export_pos(&self, name: &str) -> (r: Option<usize>)
        ensures
            r matches Some(i) ==> i < self.exports@.len() && self.first_export_named(name@) == Some(i as int),
            r is None ==> self.first_export_named(name@) is None,
    {
        let owned = name.to_owned();
        let found = self.find_export(&owned);
        let n = self.exports.len();
        proof {
            lemma_first_named(export_names(self.exports@), name@);
            assert(owned@ == name@);
            match self.first_export_named(owned@) {
                Some(k) => {
                    assert(0 <= k < export_names(self.exports@).len());
                    assert(export_names(self.exports@).len() == self.exports@.len());
                    assert(found == Some(k as usize));
                    assert(k as usize as int == k);
                },
                None => {},
            }
        }
        found
    }

    /// Resolves the item the first import named `name` refers to by its
    /// type (such as the instance type of an imported instance), in this
    /// component's own scope; `None` if there is no such import or it
    /// carries no type reference.
    pub fn resolve_named_import<'s>(&'s self, name: &str) -> (r: Option<ResolvedItem<'s>>)
        requires
            self.wf(),
            self.first_import_named(name@) matches Some(i) && self.import_type_ref(i) matches Some(t)
                ==> self.resolvable(t.ref_),
        ensures
            r == (match self.first_import_named(name@) {
                Some(i) => match self.import_type_ref(i) {
                    Some(t) => Some(self.resolve_spec(t.ref_)),
                    None => None,
                },
                None => None,
            }),
    {
        let i = match self.first_import_pos(name) {
            Some(i) => i,
            None => {
                return None;
            },
        };
        let refs = self.imports[i].get_type_refs();
        if refs.len() == 0 {
            return None;
        }
        let t = refs[0];
        proof {
            assert(self.import_type_ref(i as int) == Some(t));
        }
        Some(self.resolve(&t.ref_))
    }

    /// Resolves the item the first export named `name` exports, in this
    /// component's own scope; `None` if there is no such export.
    pub fn resolve_named_export<'s>(&'s self, name: &str) -> (r: Option<ResolvedItem<'s>>)
        requires
            self.wf(),
            self.first_export_named(name@) matches Some(i) ==> self.resolvable(self.exports@[i].spec_item_ref().ref_),
        ensures
            r == (match self.first_export_named(name@) {
                Some(i) => Some(self.resolve_spec(self.exports@[i].spec_item_ref().ref_)),
                None => None,
            }),
    {
        let i = match self.first_export_pos(name) {
            Some(i) => i,
            None => {
                return None;
            },
        };
        let item = self.exports[i].get_item_ref();
        Some(self.resolve(&item.ref_))
    }
}


/// Where following a reference through aliases and exports ends.
pub enum WalkEnd {
    /// At a canonical function.
    Func(CanonicalFunction),
    /// At an item that is neither an alias, an export nor a canonical
    /// function.
    Other,
    /// At a reference this component does not resolve.
    Unresolved,
    /// Not within the given number of steps.
    Endless,
}

impl Component {
    /// Follows `r` through aliases and exports, at most `fuel` steps, to
    /// the canonical function it names.
    pub open spec fn walk_to_func(self, r: IndexedRef, fuel: nat) -> WalkEnd
        decreases fuel,
    {
        if !self.resolvable(r) {
            WalkEnd::Unresolved
        } else {
            match self.resolve_spec(r) {
                ResolvedItem::Func(_, c) => WalkEnd::Func(*c),
                ResolvedItem::Alias(_, a) => if fuel == 0 {
                    WalkEnd::Endless
                } else {
                    self.walk_to_func(a.spec_item_ref().ref_, (fuel - 1) as nat)
                },
                ResolvedItem::Export(_, e) => if fuel == 0 {
                    WalkEnd::Endless
                } else {
                    self.walk_to_func(e.spec_item_ref().ref_, (fuel - 1) as nat)
                },
                _ => WalkEnd::Other,
            }
        }
    }

    /// The number of steps a walk through aliases and exports takes at
    /// most when it does not go round in a circle.
    pub open spec fn walk_bound(self) -> nat {
        if self.exports@.len() + self.alias.items@.len() <= usize::MAX {
            self.exports@.len() + self.alias.items@.len()
        } else {
            usize::MAX as nat
        }
    }

    /// The component type of the lifted function that `export` exports,
    /// as far as following the export through aliases and exports finds a
    /// lift: `None` when the walk ends anywhere else.
    pub open spec fn exported_lift_type<'s>(&'s self, export: ComponentExport) -> Option<&'s ComponentType> {
        match self.walk_to_func(export.spec_item_ref().ref_, self.walk_bound()) {
            WalkEnd::Func(CanonicalFunction::Lift { type_index, .. }) => match self.resolve_spec(
                crate::item_refs::plain(Space::CompType, type_index).ref_,
            ) {
                ResolvedItem::CompType(_, t) => Some(t),
                _ => None,
            },
            _ => None,
        }
    }

    /// Looks up the type of an exported lifted canonical function: follows
    /// the export through aliases and exports to the canonical function it
    /// names, and resolves the function type of a lift. `None` if the walk
    /// ends at anything but a lift (an import, for one), or the lift's type
    /// is not a component type.
    pub fn get_type_of_exported_lift_func<'s>(&'s self, export: &ComponentExport) -> (r: Option<&'s ComponentType>)
        requires
            self.wf(),
            !(self.walk_to_func(export.spec_item_ref().ref_, self.walk_bound()) is Unresolved),
            !(self.walk_to_func(export.spec_item_ref().ref_, self.walk_bound()) is Endless),
            self.walk_to_func(export.spec_item_ref().ref_, self.walk_bound()) matches WalkEnd::Func(
                CanonicalFunction::Lift { type_index, .. },
            ) ==> self.resolvable(crate::item_refs::plain(Space::CompType, type_index).ref_),
        ensures
            r == self.exported_lift_type(*export),
    {
        let bound = self.exports.len().saturating_add(self.alias.items.len());
        let mut item_ref = export.get_item_ref();
        let mut fuel: usize = bound;
        let mut found: Option<&CanonicalFunction> = None;
        loop
            invariant_except_break
                found is None,
            invariant
                self.wf(),
                fuel <= bound,
                self.walk_to_func(item_ref.ref_, fuel as nat) == self.walk_to_func(
                    export.spec_item_ref().ref_,
                    self.walk_bound(),
                ),
                bound == self.walk_bound(),
                !(self.walk_to_func(item_ref.ref_, fuel as nat) is Unresolved),
                !(self.walk_to_func(item_ref.ref_, fuel as nat) is Endless),
            ensures
                found matches Some(c) && self.walk_to_func(export.spec_item_ref().ref_, self.walk_bound())
                    == WalkEnd::Func(*c),
            decreases fuel,
        {
            match self.resolve(&item_ref.ref_) {
                ResolvedItem::Func(_, c) => {
                    found = Some(c);
                    break;
                },
                ResolvedItem::Alias(_, a) => {
                    item_ref = a.get_item_ref();
                },
                ResolvedItem::Export(_, e) => {
                    item_ref = e.get_item_ref();
                },
                _ => {
                    return None;
                },
            }
            fuel = fuel - 1;
        }
        let canon = found.unwrap();
        match canon {
            CanonicalFunction::Lift { .. } => {},
            _ => {
                return None;
            },
        }
        let refs = canon.get_type_refs();
        let type_ref = refs[0];
        match self.resolve(&type_ref.ref_) {
            ResolvedItem::CompType(_, ty) => Some(ty),
            _ => None,
        }
    }
}

} // verus!
