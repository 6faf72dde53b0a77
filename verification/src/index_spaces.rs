//! Index spaces that keep a single assumed ID per item and, at encode time,
//! the actual ID each assumed ID was given.
//!
//! Each section of a component feeds one index space; import, export and
//! alias sections feed the space of the kind of item they bring in. The
//! spaces also count, per section, how many items have been visited.

use vstd::prelude::*;
use std::collections::HashMap;
use vstd::std_specs::iter::IteratorSpec;
use crate::idx_spaces::SpaceSubtype;
use crate::items::{ComponentTypeRef, ComponentAlias};
use crate::kinds::{CompExternKind, CoreExternKind, OuterAliasKind};
use crate::section::ComponentSection;

verus! {

broadcast use vstd::std_specs::hash::group_hash_axioms;

/// The kind of item an import, export or alias brings into an index space.
#[derive(Clone, Copy, Debug, PartialEq, Eq, Structural)]
pub enum ExternalItemKind {
    // Component-level spaces
    CompFunc,
    CompVal,
    CompType,
    CompInst,
    Comp,
    // Core space added by the component model
    CoreInst,
    Module,
    // Core spaces that exist at the component level
    CoreType,
    CoreFunc,
    /// Does not take a place in an index space.
    NA,
}

impl ExternalItemKind {
    /// The kind of item a type reference ascribes.
    pub open spec fn spec_from_type_ref(t: ComponentTypeRef) -> ExternalItemKind {
        match t {
            ComponentTypeRef::Module(_) => ExternalItemKind::Module,
            ComponentTypeRef::Func(_) => ExternalItemKind::CompFunc,
            ComponentTypeRef::Value(_) => ExternalItemKind::CompVal,
            ComponentTypeRef::Type(_) => ExternalItemKind::CompType,
            ComponentTypeRef::Instance(_) => ExternalItemKind::CompInst,
            ComponentTypeRef::Component(_) => ExternalItemKind::Comp,
        }
    }

    /// The kind of item a type reference ascribes.
    pub fn from_type_ref(t: &ComponentTypeRef) -> (r: Self)
        ensures
            r == Self::spec_from_type_ref(*t),
    {
        match t {
            ComponentTypeRef::Module(_) => ExternalItemKind::Module,
            ComponentTypeRef::Func(_) => ExternalItemKind::CompFunc,
            ComponentTypeRef::Value(_) => ExternalItemKind::CompVal,
            ComponentTypeRef::Type(_) => ExternalItemKind::CompType,
            ComponentTypeRef::Instance(_) => ExternalItemKind::CompInst,
            ComponentTypeRef::Component(_) => ExternalItemKind::Comp,
        }
    }

    /// The kind of item an optional type reference ascribes; none without
    /// one.
    pub fn from_opt_type_ref(t: &Option<ComponentTypeRef>) -> (r: Self)
        ensures
            r == (match t {
                Some(t) => Self::spec_from_type_ref(*t),
                None => ExternalItemKind::NA,
            }),
    {
        match t {
            Some(t) => Self::from_type_ref(t),
            None => ExternalItemKind::NA,
        }
    }

    /// The kind of item of a component external kind.
    pub open spec fn spec_from_extern_kind(k: CompExternKind) -> ExternalItemKind {
        match k {
            CompExternKind::Module => ExternalItemKind::Module,
            CompExternKind::Func => ExternalItemKind::CompFunc,
            CompExternKind::Value => ExternalItemKind::CompVal,
            CompExternKind::Type => ExternalItemKind::CompType,
            CompExternKind::Instance => ExternalItemKind::CompInst,
            CompExternKind::Component => ExternalItemKind::Comp,
        }
    }

    /// The kind of item of a component external kind.
    pub fn from_extern_kind(k: &CompExternKind) -> (r: Self)
        ensures
            r == Self::spec_from_extern_kind(*k),
    {
        match k {
            CompExternKind::Module => ExternalItemKind::Module,
            CompExternKind::Func => ExternalItemKind::CompFunc,
            CompExternKind::Value => ExternalItemKind::CompVal,
            CompExternKind::Type => ExternalItemKind::CompType,
            CompExternKind::Instance => ExternalItemKind::CompInst,
            CompExternKind::Component => ExternalItemKind::Comp,
        }
    }

    /// The kind of item of a core external kind: only functions have one
    /// here.
    pub fn from_core_kind(k: &CoreExternKind) -> (r: Self)
        requires
            *k == CoreExternKind::Func || *k == CoreExternKind::FuncExact,
        ensures
            r == ExternalItemKind::CoreFunc,
    {
        ExternalItemKind::CoreFunc
    }

    /// The kind of item an alias brings in; every core export other than a
    /// function is counted as a core type.
    pub open spec fn spec_from_alias(a: ComponentAlias) -> ExternalItemKind {
        match a {
            ComponentAlias::InstanceExport { kind, .. } => Self::spec_from_extern_kind(kind),
            ComponentAlias::Outer { kind, .. } => match kind {
                OuterAliasKind::CoreModule => ExternalItemKind::Module,
                OuterAliasKind::CoreType => ExternalItemKind::CoreType,
                OuterAliasKind::Type => ExternalItemKind::CompType,
                OuterAliasKind::Component => ExternalItemKind::Comp,
            },
            ComponentAlias::CoreInstanceExport { kind, .. } => match kind {
                CoreExternKind::Func | CoreExternKind::FuncExact => ExternalItemKind::CoreFunc,
                _ => ExternalItemKind::CoreType,
            },
        }
    }

    /// The kind of item an alias brings in.
    pub fn from_alias(a: &ComponentAlias) -> (r: Self)
        ensures
            r == Self::spec_from_alias(*a),
    {
        match a {
            ComponentAlias::InstanceExport { kind, .. } => Self::from_extern_kind(kind),
            ComponentAlias::Outer { kind, .. } => match kind {
                OuterAliasKind::CoreModule => ExternalItemKind::Module,
                OuterAliasKind::CoreType => ExternalItemKind::CoreType,
                OuterAliasKind::Type => ExternalItemKind::CompType,
                OuterAliasKind::Component => ExternalItemKind::Comp,
            },
            ComponentAlias::CoreInstanceExport { kind, .. } => match kind {
                CoreExternKind::Func | CoreExternKind::FuncExact => ExternalItemKind::CoreFunc,
                _ => ExternalItemKind::CoreType,
            },
        }
    }
}

/// The item vector the items of a section are kept in.
pub open spec fn vector_of(section: ComponentSection) -> SpaceSubtype {
    match section {
        ComponentSection::ComponentImport => SpaceSubtype::Import,
        ComponentSection::ComponentExport => SpaceSubtype::Export,
        ComponentSection::Alias => SpaceSubtype::Alias,
        _ => SpaceSubtype::Main,
    }
}

/// One index space: its counter, the assumed ID of each position of each
/// item vector, and the actual ID given to each assumed ID when encoding.
#[derive(Clone, Debug)]
pub struct IdxSpace {
    /// The name of this index space.
    name: String,
    /// The ID reached so far.
    current_id: usize,
    /// `assumed_id -> actual_id`, filled when encoding.
    actual_ids: HashMap<usize, usize>,
    /// `main_idx -> assumed_id`.
    main_assumed_ids: HashMap<usize, usize>,
    /// `alias_idx -> assumed_id`.
    alias_assumed_ids: HashMap<usize, usize>,
    /// `imports_idx -> assumed_id`.
    imports_assumed_ids: HashMap<usize, usize>,
    /// `exports_idx -> assumed_id`.
    exports_assumed_ids: HashMap<usize, usize>,
}

impl IdxSpace {
    /// The ID reached so far.
    pub closed spec fn counter(self) -> usize {
        self.current_id
    }

    /// The name of the space.
    pub closed spec fn space_name(self) -> Seq<char> {
        self.name@
    }

    /// The actual IDs given, by assumed ID.
    pub closed spec fn actual_map(self) -> Map<usize, usize> {
        self.actual_ids@
    }

    /// The assumed IDs of the positions of item vector `sub`.
    pub closed spec fn id_map(self, sub: SpaceSubtype) -> Map<usize, usize> {
        match sub {
            SpaceSubtype::Main => self.main_assumed_ids@,
            SpaceSubtype::Alias => self.alias_assumed_ids@,
            SpaceSubtype::Import => self.imports_assumed_ids@,
            SpaceSubtype::Export => self.exports_assumed_ids@,
        }
    }

    /// An empty space named `name`.
    pub fn new(name: String) -> (r: Self)
        ensures
            r.space_name() == name@,
            r.counter() == 0,
            r.actual_map() == Map::<usize, usize>::empty(),
            forall|sub: SpaceSubtype| #[trigger] r.id_map(sub) == Map::<usize, usize>::empty(),
    {
        let r = IdxSpace {
            name,
            current_id: 0,
            actual_ids: HashMap::new(),
            main_assumed_ids: HashMap::new(),
            alias_assumed_ids: HashMap::new(),
            imports_assumed_ids: HashMap::new(),
            exports_assumed_ids: HashMap::new(),
        };
        assert forall|sub: SpaceSubtype| #[trigger] r.id_map(sub) == Map::<usize, usize>::empty() by {
        }
        r
    }

    /// Starts counting IDs from zero again (the maps are kept).
    pub fn reset_ids(&mut self)
        ensures
            final(self).counter() == 0,
            final(self).space_name() == old(self).space_name(),
            final(self).actual_map() == old(self).actual_map(),
            forall|sub: SpaceSubtype| #[trigger] final(self).id_map(sub) == old(self).id_map(sub),
    {
        self.current_id = 0;
    }

    /// The ID reached so far.
    pub fn curr_id(&self) -> (r: usize)
        ensures
            r == self.counter(),
    {
        self.current_id
    }

    /// Gives the next actual ID to the item with assumed ID `assumed_id`.
    pub fn assign_actual_id(&mut self, assumed_id: usize)
        requires
            old(self).counter() < usize::MAX,
        ensures
            final(self).actual_map() == old(self).actual_map().insert(assumed_id, old(self).counter()),
            final(self).counter() == old(self).counter() + 1,
            final(self).space_name() == old(self).space_name(),
            forall|sub: SpaceSubtype| #[trigger] final(self).id_map(sub) == old(self).id_map(sub),
    {
        let id = self.curr_id();
        self.actual_ids.insert(assumed_id, id);
        self.next();
    }

    /// Uses up the current ID and returns it.
    fn next(&mut self) -> (r: usize)
        requires
            old(self).counter() < usize::MAX,
        ensures
            r == old(self).counter(),
            final(self).counter() == old(self).counter() + 1,
            final(self).space_name() == old(self).space_name(),
            final(self).actual_map() == old(self).actual_map(),
            forall|sub: SpaceSubtype| #[trigger] final(self).id_map(sub) == old(self).id_map(sub),
    {
        let curr = self.current_id;
        self.current_id += 1;
        curr
    }

    /// The map of assumed IDs kept for the items of `section`.
    fn map_for(&self, section: &ComponentSection) -> (r: &HashMap<usize, usize>)
        ensures
            r@ == self.id_map(vector_of(*section)),
    {
        match section {
            ComponentSection::ComponentImport => &self.imports_assumed_ids,
            ComponentSection::ComponentExport => &self.exports_assumed_ids,
            ComponentSection::Alias => &self.alias_assumed_ids,
            _ => &self.main_assumed_ids,
        }
    }

    /// The assumed ID of position `vec_idx` of the item vector of
    /// `section`, if it has one.
    pub fn lookup_assumed_id(&self, section: &ComponentSection, vec_idx: usize) -> (r: Option<usize>)
        ensures
            r == (if self.id_map(vector_of(*section)).contains_key(vec_idx) {
                Some(self.id_map(vector_of(*section))[vec_idx])
            } else {
                None::<usize>
            }),
    {
        match self.map_for(section).get(&vec_idx) {
            Some(id) => Some(*id),
            None => None,
        }
    }

    /// A position of the item vector of `section` that holds assumed ID
    /// `assumed_id`, with that vector; `None` if no position holds it.
    pub fn index_from_assumed_id(&self, section: &ComponentSection, assumed_id: usize) -> (r: Option<(SpaceSubtype, usize)>)
        ensures
            match r {
                Some((sub, idx)) => sub == vector_of(*section) && self.id_map(sub).contains_key(idx)
                    && self.id_map(sub)[idx] == assumed_id,
                None => forall|idx: usize| #[trigger] self.id_map(vector_of(*section)).contains_key(idx)
                    ==> self.id_map(vector_of(*section))[idx] != assumed_id,
            },
    {
        let sub = match section {
            ComponentSection::ComponentImport => SpaceSubtype::Import,
            ComponentSection::ComponentExport => SpaceSubtype::Export,
            ComponentSection::Alias => SpaceSubtype::Alias,
            _ => SpaceSubtype::Main,
        };
        let map = self.map_for(section);
        let ghost pairs = map.iter().remaining();
        for (idx, assumed) in it: map.iter()
            invariant
                it.seq() == pairs,
                sub == vector_of(*section),
                map@ == self.id_map(sub),
                forall|j: int| 0 <= j < it.index() ==> #[trigger] pairs[j].1 != assumed_id,
        {
            if *assumed == assumed_id {
                proof {
                    assert(map@.contains_key(*idx) && map@[*idx] == *assumed);
                }
                return Some((sub, *idx));
            }
        }
        proof {
            assert forall|idx: usize| #[trigger] map@.contains_key(idx) implies map@[idx] != assumed_id by {
                let j = choose|j: int| 0 <= j < pairs.len() && pairs[j].0 == idx;
                assert(pairs[j].1 == map@[idx]);
            }
        }
        None
    }

    /// Gives the next assumed ID to position `vec_idx` of the item vector
    /// of `section`, replacing one it had, and returns it.
    pub fn assign_assumed_id(&mut self, section: &ComponentSection, vec_idx: usize) -> (r: usize)
        requires
            old(self).counter() < usize::MAX,
        ensures
            r == old(self).counter(),
            final(self).counter() == old(self).counter() + 1,
            final(self).id_map(vector_of(*section)) == old(self).id_map(vector_of(*section)).insert(vec_idx, r),
            forall|sub: SpaceSubtype| sub != vector_of(*section) ==> #[trigger] final(self).id_map(sub) == old(self).id_map(sub),
            final(self).actual_map() == old(self).actual_map(),
            final(self).space_name() == old(self).space_name(),
    {
        let assumed_id = self.curr_id();
        self.next();
        let ghost mid = *self;
        match section {
            ComponentSection::ComponentImport => {
                self.imports_assumed_ids.insert(vec_idx, assumed_id);
                proof {
                    assert(self.id_map(SpaceSubtype::Import) == mid.id_map(SpaceSubtype::Import).insert(vec_idx, assumed_id));
                    assert(self.id_map(SpaceSubtype::Main) == mid.id_map(SpaceSubtype::Main));
                    assert(self.id_map(SpaceSubtype::Alias) == mid.id_map(SpaceSubtype::Alias));
                    assert(self.id_map(SpaceSubtype::Export) == mid.id_map(SpaceSubtype::Export));
                }
            },
            ComponentSection::ComponentExport => {
                self.exports_assumed_ids.insert(vec_idx, assumed_id);
                proof {
                    assert(self.id_map(SpaceSubtype::Export) == mid.id_map(SpaceSubtype::Export).insert(vec_idx, assumed_id));
                    assert(self.id_map(SpaceSubtype::Main) == mid.id_map(SpaceSubtype::Main));
                    assert(self.id_map(SpaceSubtype::Alias) == mid.id_map(SpaceSubtype::Alias));
                    assert(self.id_map(SpaceSubtype::Import) == mid.id_map(SpaceSubtype::Import));
                }
            },
            ComponentSection::Alias => {
                self.alias_assumed_ids.insert(vec_idx, assumed_id);
                proof {
                    assert(self.id_map(SpaceSubtype::Alias) == mid.id_map(SpaceSubtype::Alias).insert(vec_idx, assumed_id));
                    assert(self.id_map(SpaceSubtype::Main) == mid.id_map(SpaceSubtype::Main));
                    assert(self.id_map(SpaceSubtype::Export) == mid.id_map(SpaceSubtype::Export));
                    assert(self.id_map(SpaceSubtype::Import) == mid.id_map(SpaceSubtype::Import));
                }
            },
            _ => {
                self.main_assumed_ids.insert(vec_idx, assumed_id);
                proof {
                    assert(vector_of(*section) == SpaceSubtype::Main);
                    assert(self.id_map(SpaceSubtype::Main) == mid.id_map(SpaceSubtype::Main).insert(vec_idx, assumed_id));
                    assert(self.id_map(SpaceSubtype::Alias) == mid.id_map(SpaceSubtype::Alias));
                    assert(self.id_map(SpaceSubtype::Export) == mid.id_map(SpaceSubtype::Export));
                    assert(self.id_map(SpaceSubtype::Import) == mid.id_map(SpaceSubtype::Import));
                }
            },
        }
        proof {
            assert forall|sub: SpaceSubtype| sub != vector_of(*section) implies #[trigger] self.id_map(sub)
                == old(self).id_map(sub) by {
                assert(mid.id_map(sub) == old(self).id_map(sub));
            }
        }
        assumed_id
    }

    /// The item with assumed ID `assumed_id` was given an actual ID.
    pub fn is_encoded(&self, assumed_id: usize) -> (r: bool)
        ensures
            r == self.actual_map().contains_key(assumed_id),
    {
        self.actual_ids.contains_key(&assumed_id)
    }

    /// The actual ID given to the item with assumed ID `id`, if any.
    pub fn lookup_actual_id(&self, id: usize) -> (r: Option<usize>)
        ensures
            r == (if self.actual_map().contains_key(id) {
                Some(self.actual_map()[id])
            } else {
                None::<usize>
            }),
    {
        match self.actual_ids.get(&id) {
            Some(a) => Some(*a),
            None => None,
        }
    }
}


/// The index spaces of [`IdxSpaces`], by name.
#[derive(Clone, Copy, Debug, PartialEq, Eq, Structural)]
pub enum SpaceName {
    CompFunc,
    CompVal,
    CompType,
    CompInst,
    Comp,
    CoreInst,
    Module,
    CoreType,
    CoreFunc,
}

/// The space the items of section `outer` take a place in: the space of
/// the section, or, for imports, exports and aliases, the space of the kind
/// of item `inner` they bring in. Custom and start sections, and items of
/// no kind, take none.
pub open spec fn space_for(outer: ComponentSection, inner: ExternalItemKind) -> Option<SpaceName> {
    match outer {
        ComponentSection::Module => Some(SpaceName::Module),
        ComponentSection::CoreType => Some(SpaceName::CoreType),
        ComponentSection::ComponentType => Some(SpaceName::CompType),
        ComponentSection::CoreInstance => Some(SpaceName::CoreInst),
        ComponentSection::ComponentInstance => Some(SpaceName::CompInst),
        ComponentSection::Canon => Some(SpaceName::CoreFunc),
        ComponentSection::Component => Some(SpaceName::Comp),
        ComponentSection::Alias | ComponentSection::ComponentImport | ComponentSection::ComponentExport => match inner {
            ExternalItemKind::CompFunc => Some(SpaceName::CompFunc),
            ExternalItemKind::CompVal => Some(SpaceName::CompVal),
            ExternalItemKind::CompType => Some(SpaceName::CompType),
            ExternalItemKind::CompInst => Some(SpaceName::CompInst),
            ExternalItemKind::Comp => Some(SpaceName::Comp),
            ExternalItemKind::CoreInst => Some(SpaceName::CoreInst),
            ExternalItemKind::Module => Some(SpaceName::Module),
            ExternalItemKind::CoreType => Some(SpaceName::CoreType),
            ExternalItemKind::CoreFunc => Some(SpaceName::CoreFunc),
            ExternalItemKind::NA => None,
        },
        ComponentSection::ComponentStartSection | ComponentSection::CustomSection => None,
    }
}

/// The index spaces of a component, and how many items of each section
/// have been visited.
#[derive(Clone, Debug)]
pub struct IdxSpaces {
    // Component-level spaces
    pub comp_func: IdxSpace,
    pub comp_val: IdxSpace,
    pub comp_type: IdxSpace,
    pub comp_inst: IdxSpace,
    pub comp: IdxSpace,
    // Core space added by the component model
    pub core_inst: IdxSpace,
    pub module: IdxSpace,
    // Core spaces that exist at the component level
    pub core_type: IdxSpace,
    pub core_func: IdxSpace,
    // How many items of each section have been visited
    last_processed_module: usize,
    last_processed_alias: usize,
    last_processed_core_ty: usize,
    last_processed_comp_ty: usize,
    last_processed_imp: usize,
    last_processed_exp: usize,
    last_processed_core_inst: usize,
    last_processed_comp_inst: usize,
    last_processed_canon: usize,
    last_processed_component: usize,
    last_processed_custom: usize,
}

impl IdxSpaces {
    /// The space named `n`.
    pub closed spec fn space(self, n: SpaceName) -> IdxSpace {
        match n {
            SpaceName::CompFunc => self.comp_func,
            SpaceName::CompVal => self.comp_val,
            SpaceName::CompType => self.comp_type,
            SpaceName::CompInst => self.comp_inst,
            SpaceName::Comp => self.comp,
            SpaceName::CoreInst => self.core_inst,
            SpaceName::Module => self.module,
            SpaceName::CoreType => self.core_type,
            SpaceName::CoreFunc => self.core_func,
        }
    }

    /// How many items of `section` have been visited.
    pub closed spec fn visited(self, section: ComponentSection) -> usize {
        match section {
            ComponentSection::Module => self.last_processed_module,
            ComponentSection::Alias => self.last_processed_alias,
            ComponentSection::CoreType => self.last_processed_core_ty,
            ComponentSection::ComponentType => self.last_processed_comp_ty,
            ComponentSection::ComponentImport => self.last_processed_imp,
            ComponentSection::ComponentExport => self.last_processed_exp,
            ComponentSection::CoreInstance => self.last_processed_core_inst,
            ComponentSection::ComponentInstance => self.last_processed_comp_inst,
            ComponentSection::Canon => self.last_processed_canon,
            ComponentSection::CustomSection => self.last_processed_custom,
            ComponentSection::Component => self.last_processed_component,
            ComponentSection::ComponentStartSection => 0,
        }
    }

    /// Empty spaces, with nothing visited.
    pub fn new() -> (r: Self)
        ensures
            forall|n: SpaceName| #![trigger r.space(n)] r.space(n).counter() == 0
                && r.space(n).actual_map() == Map::<usize, usize>::empty()
                && forall|sub: SpaceSubtype| #[trigger] r.space(n).id_map(sub) == Map::<usize, usize>::empty(),
            forall|s: ComponentSection| #[trigger] r.visited(s) == 0,
    {
        Self {
            comp_func: IdxSpace::new("component_functions".to_string()),
            comp_val: IdxSpace::new("component_values".to_string()),
            comp_type: IdxSpace::new("component_types".to_string()),
            comp_inst: IdxSpace::new("component_instances".to_string()),
            comp: IdxSpace::new("components".to_string()),
            core_inst: IdxSpace::new("core_instances".to_string()),
            module: IdxSpace::new("core_modules".to_string()),
            core_type: IdxSpace::new("core_types".to_string()),
            core_func: IdxSpace::new("core_functions".to_string()),
            last_processed_module: 0,
            last_processed_alias: 0,
            last_processed_core_ty: 0,
            last_processed_comp_ty: 0,
            last_processed_imp: 0,
            last_processed_exp: 0,
            last_processed_core_inst: 0,
            last_processed_comp_inst: 0,
            last_processed_canon: 0,
            last_processed_component: 0,
            last_processed_custom: 0,
        }
    }

    /// The space the items of `outer` (of kind `inner`) take a place in.
    fn get_space(&self, outer: &ComponentSection, inner: &ExternalItemKind) -> (r: Option<&IdxSpace>)
        ensures
            match space_for(*outer, *inner) {
                Some(n) => r == Some(&self.space(n)),
                None => r is None,
            },
    {
        let name = match Self::name_for(outer, inner) {
            Some(n) => n,
            None => {
                return None;
            },
        };
        Some(self.named(name))
    }

    /// The name of the space the items of `outer` (of kind `inner`) take a
    /// place in.
    fn name_for(outer: &ComponentSection, inner: &ExternalItemKind) -> (r: Option<SpaceName>)
        ensures
            r == space_for(*outer, *inner),
    {
        match outer {
            ComponentSection::Module => Some(SpaceName::Module),
            ComponentSection::CoreType => Some(SpaceName::CoreType),
            ComponentSection::ComponentType => Some(SpaceName::CompType),
            ComponentSection::CoreInstance => Some(SpaceName::CoreInst),
            ComponentSection::ComponentInstance => Some(SpaceName::CompInst),
            ComponentSection::Canon => Some(SpaceName::CoreFunc),
            ComponentSection::Component => Some(SpaceName::Comp),
            ComponentSection::Alias | ComponentSection::ComponentImport | ComponentSection::ComponentExport => match inner {
                ExternalItemKind::CompFunc => Some(SpaceName::CompFunc),
                ExternalItemKind::CompVal => Some(SpaceName::CompVal),
                ExternalItemKind::CompType => Some(SpaceName::CompType),
                ExternalItemKind::CompInst => Some(SpaceName::CompInst),
                ExternalItemKind::Comp => Some(SpaceName::Comp),
                ExternalItemKind::CoreInst => Some(SpaceName::CoreInst),
                ExternalItemKind::Module => Some(SpaceName::Module),
                ExternalItemKind::CoreType => Some(SpaceName::CoreType),
                ExternalItemKind::CoreFunc => Some(SpaceName::CoreFunc),
                ExternalItemKind::NA => None,
            },
            ComponentSection::ComponentStartSection | ComponentSection::CustomSection => None,
        }
    }

    /// The space named `n`.
    fn named(&self, n: SpaceName) -> (r: &IdxSpace)
        ensures
            *r == self.space(n),
    {
        match n {
            SpaceName::CompFunc => &self.comp_func,
            SpaceName::CompVal => &self.comp_val,
            SpaceName::CompType => &self.comp_type,
            SpaceName::CompInst => &self.comp_inst,
            SpaceName::Comp => &self.comp,
            SpaceName::CoreInst => &self.core_inst,
            SpaceName::Module => &self.module,
            SpaceName::CoreType => &self.core_type,
            SpaceName::CoreFunc => &self.core_func,
        }
    }

    /// The assumed ID of position `vec_idx` of the items of `outer` (of
    /// kind `inner`).
    pub fn lookup_assumed_id(&self, outer: &ComponentSection, inner: &ExternalItemKind, vec_idx: usize) -> (r: usize)
        requires
            space_for(*outer, *inner) is Some,
            self.space(space_for(*outer, *inner)->Some_0).id_map(vector_of(*outer)).contains_key(vec_idx),
        ensures
            r == self.space(space_for(*outer, *inner)->Some_0).id_map(vector_of(*outer))[vec_idx],
    {
        match self.get_space(outer, inner) {
            Some(space) => match space.lookup_assumed_id(outer, vec_idx) {
                Some(id) => id,
                None => {
                    proof {
                        assert(false);
                    }
                    0
                },
            },
            None => {
                proof {
                    assert(false);
                }
                0
            },
        }
    }

    /// Whether the item at position `vec_idx` of the items of `outer` (of
    /// kind `inner`) was given an actual ID.
    pub fn is_encoded(&self, outer: &ComponentSection, inner: &ExternalItemKind, vec_idx: usize) -> (r: bool)
        requires
            space_for(*outer, *inner) is Some,
            self.space(space_for(*outer, *inner)->Some_0).id_map(vector_of(*outer)).contains_key(vec_idx),
        ensures
            r == self.space(space_for(*outer, *inner)->Some_0).actual_map().contains_key(
                self.space(space_for(*outer, *inner)->Some_0).id_map(vector_of(*outer))[vec_idx],
            ),
    {
        let assumed_id = self.lookup_assumed_id(outer, inner, vec_idx);
        match self.get_space(outer, inner) {
            Some(space) => space.is_encoded(assumed_id),
            None => {
                proof {
                    assert(false);
                }
                false
            },
        }
    }

    /// A position of the items of `outer` (of kind `inner`) that holds
    /// assumed ID `assumed_id`, with its item vector.
    pub fn index_from_assumed_id(&self, outer: &ComponentSection, inner: &ExternalItemKind, assumed_id: usize) -> (r: (SpaceSubtype, usize))
        requires
            space_for(*outer, *inner) is Some,
            exists|idx: usize| #[trigger] self.space(space_for(*outer, *inner)->Some_0).id_map(vector_of(*outer)).contains_key(idx)
                && self.space(space_for(*outer, *inner)->Some_0).id_map(vector_of(*outer))[idx] == assumed_id,
        ensures
            r.0 == vector_of(*outer),
            self.space(space_for(*outer, *inner)->Some_0).id_map(r.0).contains_key(r.1),
            self.space(space_for(*outer, *inner)->Some_0).id_map(r.0)[r.1] == assumed_id,
    {
        match self.get_space(outer, inner) {
            Some(space) => match space.index_from_assumed_id(outer, assumed_id) {
                Some(found) => found,
                None => {
                    proof {
                        assert(false);
                    }
                    (SpaceSubtype::Main, 0)
                },
            },
            None => {
                proof {
                    assert(false);
                }
                (SpaceSubtype::Main, 0)
            },
        }
    }

    /// The actual ID given to the item with assumed ID `assumed_id` among
    /// the items of `outer` (of kind `inner`), if any.
    pub fn lookup_actual_id(&self, outer: &ComponentSection, inner: &ExternalItemKind, assumed_id: usize) -> (r: Option<usize>)
        ensures
            r == (match space_for(*outer, *inner) {
                Some(n) => if self.space(n).actual_map().contains_key(assumed_id) {
                    Some(self.space(n).actual_map()[assumed_id])
                } else {
                    None::<usize>
                },
                None => None::<usize>,
            }),
    {
        match self.get_space(outer, inner) {
            Some(space) => space.lookup_actual_id(assumed_id),
            None => None,
        }
    }

    /// The actual ID given to the item with assumed ID `assumed_id` among
    /// the items of `outer` (of kind `inner`).
    pub fn lookup_actual_id_or_panic(&self, outer: &ComponentSection, inner: &ExternalItemKind, assumed_id: usize) -> (r: usize)
        requires
            space_for(*outer, *inner) is Some,
            self.space(space_for(*outer, *inner)->Some_0).actual_map().contains_key(assumed_id),
        ensures
            r == self.space(space_for(*outer, *inner)->Some_0).actual_map()[assumed_id],
    {
        match self.lookup_actual_id(outer, inner, assumed_id) {
            Some(a) => a,
            None => {
                proof {
                    assert(false);
                }
                0
            },
        }
    }

    /// Counts `num` more visited items of `section`, and returns how many
    /// had been visited before.
    pub fn visit_section(&mut self, section: &ComponentSection, num: usize) -> (r: usize)
        requires
            *section != ComponentSection::ComponentStartSection,
            old(self).visited(*section) + num <= usize::MAX,
        ensures
            r == old(self).visited(*section),
            final(self).visited(*section) == old(self).visited(*section) + num,
            forall|s: ComponentSection| s != *section ==> #[trigger] final(self).visited(s) == old(self).visited(s),
            forall|n: SpaceName| #[trigger] final(self).space(n) == old(self).space(n),
    {
        let curr;
        match section {
            ComponentSection::Module => {
                curr = self.last_processed_module;
                self.last_processed_module = curr + num;
            },
            ComponentSection::Alias => {
                curr = self.last_processed_alias;
                self.last_processed_alias = curr + num;
            },
            ComponentSection::CoreType => {
                curr = self.last_processed_core_ty;
                self.last_processed_core_ty = curr + num;
            },
            ComponentSection::ComponentType => {
                curr = self.last_processed_comp_ty;
                self.last_processed_comp_ty = curr + num;
            },
            ComponentSection::ComponentImport => {
                curr = self.last_processed_imp;
                self.last_processed_imp = curr + num;
            },
            ComponentSection::ComponentExport => {
                curr = self.last_processed_exp;
                self.last_processed_exp = curr + num;
            },
            ComponentSection::CoreInstance => {
                curr = self.last_processed_core_inst;
                self.last_processed_core_inst = curr + num;
            },
            ComponentSection::ComponentInstance => {
                curr = self.last_processed_comp_inst;
                self.last_processed_comp_inst = curr + num;
            },
            ComponentSection::Canon => {
                curr = self.last_processed_canon;
                self.last_processed_canon = curr + num;
            },
            ComponentSection::CustomSection => {
                curr = self.last_processed_custom;
                self.last_processed_custom = curr + num;
            },
            ComponentSection::Component => {
                curr = self.last_processed_component;
                self.last_processed_component = curr + num;
            },
            ComponentSection::ComponentStartSection => {
                proof {
                    assert(false);
                }
                curr = 0;
            },
        }
        curr
    }

    /// Starts counting the IDs of every space from zero again.
    pub fn reset_ids(&mut self)
        ensures
            forall|n: SpaceName| #![trigger final(self).space(n)] final(self).space(n).counter() == 0
                && final(self).space(n).actual_map() == old(self).space(n).actual_map()
                && forall|sub: SpaceSubtype| #[trigger] final(self).space(n).id_map(sub) == old(self).space(n).id_map(sub),
            forall|s: ComponentSection| #[trigger] final(self).visited(s) == old(self).visited(s),
    {
        self.comp_func.reset_ids();
        self.comp_val.reset_ids();
        self.comp_type.reset_ids();
        self.comp_inst.reset_ids();
        self.comp.reset_ids();
        self.core_inst.reset_ids();
        self.module.reset_ids();
        self.core_type.reset_ids();
        self.core_func.reset_ids();
    }
}


impl IdxSpaces {
    /// Gives the next assumed ID of space `n` to position `vec_idx` of the
    /// item vector of `section`.
    fn assign_in(&mut self, n: SpaceName, section: &ComponentSection, vec_idx: usize) -> (r: usize)
        requires
            old(self).space(n).counter() < usize::MAX,
        ensures
            r == old(self).space(n).counter(),
            final(self).space(n).counter() == old(self).space(n).counter() + 1,
            final(self).space(n).id_map(vector_of(*section)) == old(self).space(n).id_map(vector_of(*section)).insert(vec_idx, r),
            forall|sub: SpaceSubtype| sub != vector_of(*section) ==> #[trigger] final(self).space(n).id_map(sub)
                == old(self).space(n).id_map(sub),
            final(self).space(n).actual_map() == old(self).space(n).actual_map(),
            forall|o: SpaceName| o != n ==> #[trigger] final(self).space(o) == old(self).space(o),
            forall|s: ComponentSection| #[trigger] final(self).visited(s) == old(self).visited(s),
    {
        match n {
            SpaceName::CompFunc => self.comp_func.assign_assumed_id(section, vec_idx),
            SpaceName::CompVal => self.comp_val.assign_assumed_id(section, vec_idx),
            SpaceName::CompType => self.comp_type.assign_assumed_id(section, vec_idx),
            SpaceName::CompInst => self.comp_inst.assign_assumed_id(section, vec_idx),
            SpaceName::Comp => self.comp.assign_assumed_id(section, vec_idx),
            SpaceName::CoreInst => self.core_inst.assign_assumed_id(section, vec_idx),
            SpaceName::Module => self.module.assign_assumed_id(section, vec_idx),
            SpaceName::CoreType => self.core_type.assign_assumed_id(section, vec_idx),
            SpaceName::CoreFunc => self.core_func.assign_assumed_id(section, vec_idx),
        }
    }

    /// Gives the next actual ID of space `n` to assumed ID `assumed_id`.
    fn assign_actual_in(&mut self, n: SpaceName, assumed_id: usize)
        requires
            old(self).space(n).counter() < usize::MAX,
        ensures
            final(self).space(n).actual_map() == old(self).space(n).actual_map().insert(
                assumed_id,
                old(self).space(n).counter(),
            ),
            final(self).space(n).counter() == old(self).space(n).counter() + 1,
            forall|sub: SpaceSubtype| #[trigger] final(self).space(n).id_map(sub) == old(self).space(n).id_map(sub),
            forall|o: SpaceName| o != n ==> #[trigger] final(self).space(o) == old(self).space(o),
            forall|s: ComponentSection| #[trigger] final(self).visited(s) == old(self).visited(s),
    {
        match n {
            SpaceName::CompFunc => self.comp_func.assign_actual_id(assumed_id),
            SpaceName::CompVal => self.comp_val.assign_actual_id(assumed_id),
            SpaceName::CompType => self.comp_type.assign_actual_id(assumed_id),
            SpaceName::CompInst => self.comp_inst.assign_actual_id(assumed_id),
            SpaceName::Comp => self.comp.assign_actual_id(assumed_id),
            SpaceName::CoreInst => self.core_inst.assign_actual_id(assumed_id),
            SpaceName::Module => self.module.assign_actual_id(assumed_id),
            SpaceName::CoreType => self.core_type.assign_actual_id(assumed_id),
            SpaceName::CoreFunc => self.core_func.assign_actual_id(assumed_id),
        }
    }

    /// Gives the next assumed ID of the space the items of `outer` (of
    /// kind `inner`) take a place in to position `curr_idx` of their item
    /// vector; nothing where they take no place.
    pub fn assign_assumed_id(&mut self, outer: &ComponentSection, inner: &ExternalItemKind, curr_idx: usize) -> (r: Option<usize>)
        requires
            space_for(*outer, *inner) matches Some(n) ==> old(self).space(n).counter() < usize::MAX,
        ensures
            match space_for(*outer, *inner) {
                Some(n) => {
                    &&& r == Some(old(self).space(n).counter())
                    &&& final(self).space(n).counter() == old(self).space(n).counter() + 1
                    &&& final(self).space(n).id_map(vector_of(*outer)) == old(self).space(n).id_map(
                        vector_of(*outer),
                    ).insert(curr_idx, old(self).space(n).counter())
                    &&& forall|sub: SpaceSubtype| sub != vector_of(*outer) ==> #[trigger] final(self).space(n).id_map(sub)
                        == old(self).space(n).id_map(sub)
                    &&& final(self).space(n).actual_map() == old(self).space(n).actual_map()
                    &&& forall|o: SpaceName| o != n ==> #[trigger] final(self).space(o) == old(self).space(o)
                },
                None => r is None && forall|o: SpaceName| #[trigger] final(self).space(o) == old(self).space(o),
            },
            forall|s: ComponentSection| #[trigger] final(self).visited(s) == old(self).visited(s),
    {
        match Self::name_for(outer, inner) {
            Some(n) => Some(self.assign_in(n, outer, curr_idx)),
            None => None,
        }
    }

    /// Gives the next actual ID of its space to the item at position
    /// `vec_idx` of the items of `outer` (of kind `inner`).
    pub fn assign_actual_id(&mut self, outer: &ComponentSection, inner: &ExternalItemKind, vec_idx: usize)
        requires
            space_for(*outer, *inner) is Some,
            old(self).space(space_for(*outer, *inner)->Some_0).id_map(vector_of(*outer)).contains_key(vec_idx),
            old(self).space(space_for(*outer, *inner)->Some_0).counter() < usize::MAX,
        ensures
            ({
                let n = space_for(*outer, *inner)->Some_0;
                let assumed = old(self).space(n).id_map(vector_of(*outer))[vec_idx];
                &&& final(self).space(n).actual_map() == old(self).space(n).actual_map().insert(
                    assumed,
                    old(self).space(n).counter(),
                )
                &&& final(self).space(n).counter() == old(self).space(n).counter() + 1
                &&& forall|sub: SpaceSubtype| #[trigger] final(self).space(n).id_map(sub) == old(self).space(n).id_map(sub)
                &&& forall|o: SpaceName| o != n ==> #[trigger] final(self).space(o) == old(self).space(o)
            }),
            forall|s: ComponentSection| #[trigger] final(self).visited(s) == old(self).visited(s),
    {
        let assumed_id = self.lookup_assumed_id(outer, inner, vec_idx);
        match Self::name_for(outer, inner) {
            Some(n) => self.assign_actual_in(n, assumed_id),
            None => {
                proof {
                    assert(false);
                }
            },
        }
    }
}

} // verus!
