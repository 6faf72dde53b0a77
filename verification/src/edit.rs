//! Growing a component one item at a time.
//!
//! An added item is appended to its item vector and takes the next index
//! of the index space it lands in; its section joins the last section of
//! the component when that one has the same kind, and opens a new section
//! otherwise.

use vstd::prelude::*;
use crate::section::ComponentSection;
use crate::idx_spaces::{Space, SpaceSubtype, IdxSpace, IndexStore, ScopeId, IndexSpaceOf, subtype_of_section};
use crate::component::{Component, vec_len, positions_within};
use crate::refs::{IndexedRef, Depth};
use crate::payload::Error;
use crate::wasm::{payloads_of, read_payloads};
use crate::parse::{total_weight, parse_spec, payloads_fit, lemma_total_weight_reverse};
use crate::component::Built;
use crate::items::{
    Module, ComponentImport, ComponentExport, ComponentAlias, CanonicalFunction, ComponentType, CoreType,
    Instance, ComponentInstance, CustomSection, ComponentTypeRef, ComponentValType, TypeBounds,
};
use crate::kinds::{CompExternKind, CoreExternKind, OuterAliasKind};
use crate::ids::{
    ModuleID, ComponentId, ComponentInstanceId, ComponentFunctionId, ValueID, ComponentTypeId, CoreTypeId,
    CoreInstanceId, CustomSectionID, AliasId, CanonFuncId,
};

verus! {

/// The section list `s` after one more item of kind `k`: the last section
/// counts one more item when it has kind `k`, else a section of one item
/// of kind `k` follows it.
pub open spec fn merge_section(s: Seq<(u32, ComponentSection)>, k: ComponentSection) -> Seq<(u32, ComponentSection)> {
    if s.len() > 0 && s.last().1 == k {
        s.update(s.len() - 1, ((s.last().0 + 1) as u32, k))
    } else {
        s.push((1, k))
    }
}

/// The section list `s` can count one more item of kind `k`.
pub open spec fn section_room(s: Seq<(u32, ComponentSection)>, k: ComponentSection) -> bool {
    s.len() > 0 && s.last().1 == k ==> s.last().0 < u32::MAX
}

/// Counts one more item of kind `sect` in the section list.
fn add_section(sections: &mut Vec<(u32, ComponentSection)>, num_sections: &mut usize, sect: ComponentSection)
    requires
        *old(num_sections) == old(sections)@.len(),
        section_room(old(sections)@, sect),
    ensures
        final(sections)@ == merge_section(old(sections)@, sect),
        *final(num_sections) == final(sections)@.len(),
{
    if *num_sections > 0 && sections[*num_sections - 1].1 == sect {
        let last = *num_sections - 1;
        let (count, kind) = sections[last];
        sections.set(last, (count + 1, kind));
    } else {
        sections.push((1, sect));
        *num_sections = sections.len();
    }
}

/// Gives the item about to take position `idx` of the item vector of
/// `sect` the next ID of index space `space` of scope `space_id`, and
/// counts it in the section list. An item of no index space keeps its
/// position as its ID.
fn add_section_and_get_id(
    store: &mut IndexStore,
    space_id: ScopeId,
    sections: &mut Vec<(u32, ComponentSection)>,
    num_sections: &mut usize,
    space: Space,
    sect: ComponentSection,
    idx: usize,
) -> (r: usize)
    requires
        old(store).wf(),
        old(store).scope_map().contains_key(space_id),
        space != Space::NA ==> old(store).scope_map()[space_id].space(space).counter() < usize::MAX,
        *old(num_sections) == old(sections)@.len(),
        section_room(old(sections)@, sect),
    ensures
        final(sections)@ == merge_section(old(sections)@, sect),
        *final(num_sections) == final(sections)@.len(),
        final(store).wf(),
        final(store).scope_map().dom() == old(store).scope_map().dom(),
        final(store).scope_map()[space_id].id == old(store).scope_map()[space_id].id,
        space == Space::NA ==> r == idx && final(store).scope_map()[space_id] == old(store).scope_map()[space_id],
        space != Space::NA ==> {
            let before = old(store).scope_map()[space_id];
            let after = final(store).scope_map()[space_id];
            &&& r == before.space(space).counter()
            &&& IdxSpace::assign_step(before.space(space), after.space(space), sect, idx, r)
            &&& forall|o: Space| o != space && o != Space::NA ==> #[trigger] after.space(o) == before.space(o)
        },
{
    let assumed_id = store.assign_assumed_id(&space_id, &space, &sect, idx);
    add_section(sections, num_sections, sect);
    match assumed_id {
        Some(id) => id,
        None => idx,
    }
}

impl Component {
    /// Everything but the section list, the index scope, the scope
    /// registry and the item vector of `k` is as in `old`.
    pub open spec fn keeps_all_but(self, old: Component, k: ComponentSection) -> bool {
        &&& self.uid == old.uid
        &&& self.space_id == old.space_id
        &&& self.component_name == old.component_name
        &&& self.names == old.names
        &&& k != ComponentSection::Component ==> self.components@ == old.components@
        &&& k != ComponentSection::Module ==> self.modules@ == old.modules@
        &&& k != ComponentSection::ComponentType ==> self.component_types.items@ == old.component_types.items@
        &&& k != ComponentSection::ComponentInstance ==> self.component_instance@ == old.component_instance@
        &&& k != ComponentSection::Canon ==> self.canons.items@ == old.canons.items@
        &&& k != ComponentSection::Alias ==> self.alias.items@ == old.alias.items@
        &&& k != ComponentSection::ComponentImport ==> self.imports@ == old.imports@
        &&& k != ComponentSection::ComponentExport ==> self.exports@ == old.exports@
        &&& k != ComponentSection::CoreType ==> self.core_types@ == old.core_types@
        &&& k != ComponentSection::CoreInstance ==> self.instances@ == old.instances@
        &&& k != ComponentSection::CustomSection ==> self.custom_sections@ == old.custom_sections@
        &&& self.start_section@ == old.start_section@
    }

    /// Every item vector of `old` that an index space refers into is the
    /// start of the same vector of this component.
    pub open spec fn extends(self, old: Component) -> bool {
        &&& prefix_of(old.components@, self.components@)
        &&& prefix_of(old.modules@, self.modules@)
        &&& prefix_of(old.component_types.items@, self.component_types.items@)
        &&& prefix_of(old.component_instance@, self.component_instance@)
        &&& prefix_of(old.canons.items@, self.canons.items@)
        &&& prefix_of(old.alias.items@, self.alias.items@)
        &&& prefix_of(old.imports@, self.imports@)
        &&& prefix_of(old.exports@, self.exports@)
        &&& prefix_of(old.core_types@, self.core_types@)
        &&& prefix_of(old.instances@, self.instances@)
    }

    /// One more item of `sect`, landing in index space `sp`, can be added.
    pub open spec fn can_add(self, sp: Space, sect: ComponentSection) -> bool {
        &&& self.wf()
        &&& section_room(self.sections@, sect)
        &&& sp != Space::NA ==> self.scope().space(sp).counter() < usize::MAX
    }

    /// The component is `old` with one more item of `sect`, at position
    /// `idx` of its item vector, that took ID `id` of index space `sp`:
    /// the next ID of that space (or its position, for an item of no
    /// space).
    pub open spec fn grew(self, old: Component, sp: Space, sect: ComponentSection, idx: usize, id: u32) -> bool {
        &&& self.wf()
        &&& self.sections@ == merge_section(old.sections@, sect)
        &&& self.keeps_all_but(old, sect)
        &&& self.extends(old)
        &&& sect != ComponentSection::Component ==> self.scope_registry == old.scope_registry
        &&& sp == Space::NA ==> self.scope() == old.scope() && id == idx as u32
        &&& sp != Space::NA ==> {
            &&& id == old.scope().space(sp).counter() as u32
            &&& IdxSpace::assign_step(
                old.scope().space(sp),
                self.scope().space(sp),
                sect,
                idx,
                old.scope().space(sp).counter(),
            )
            &&& forall|o: Space| o != sp && o != Space::NA ==> #[trigger] self.scope().space(o) == old.scope().space(o)
        }
    }

    /// Reference `id` of index space `sp`, made in this component, names the
    /// item at position `idx` of the item vector of `sect`.
    pub open spec fn names_item(self, sp: Space, sect: ComponentSection, idx: usize, id: u32) -> bool {
        let r = IndexedRef { depth: Depth::at_level(0), space: sp, index: id };
        &&& self.resolvable(r)
        &&& self.resolve_spec(r) == self.item_at_spec(r, subtype_of_section(sect), idx as int)
    }

    /// After an item was given its ID and appended, the component is well
    /// formed, and the ID, where it fits, names the item.
    proof fn lemma_grew(self, old: Component, sp: Space, sect: ComponentSection, idx: usize, id: usize)
        requires
            old.wf(),
            self.index_store.wf(),
            self.index_store.scope_map().contains_key(self.space_id),
            self.num_sections == self.sections@.len(),
            self.space_id == old.space_id,
            self.scope().id == old.scope().id,
            forall|s: Space, sub: SpaceSubtype| vec_len(s, sub, old.lens()) <= #[trigger] vec_len(s, sub, self.lens()),
            idx < vec_len(sp, subtype_of_section(sect), self.lens()) || sp == Space::NA,
            sp == Space::NA ==> self.scope() == old.scope() && id == idx,
            sp != Space::NA ==> {
                &&& id == old.scope().space(sp).counter()
                &&& IdxSpace::assign_step(old.scope().space(sp), self.scope().space(sp), sect, idx, id)
                &&& forall|o: Space| o != sp && o != Space::NA ==> #[trigger] self.scope().space(o) == old.scope().space(o)
            },
        ensures
            self.wf(),
            sp != Space::NA && id < u32::MAX ==> self.names_item(sp, sect, idx, id as u32),
    {
        let before = old.scope();
        let after = self.scope();
        if sp == Space::NA {
            assert forall|o: Space, sub: SpaceSubtype, k: usize| o != Space::NA
                && #[trigger] after.space(o).id_map(sub).contains_key(k) implies k < vec_len(o, sub, self.lens()) by {
                assert(k < vec_len(o, sub, old.lens()));
            }
        } else {
            crate::parse::lemma_one_position(before, after, sp, sect, idx, old.lens(), self.lens());
            if id < u32::MAX {
                assert(before.space(sp).wf());
                IdxSpace::lemma_assigned_id_is_found(before.space(sp), after.space(sp), sect, idx, id);
                let r = IndexedRef { depth: Depth::at_level(0), space: sp, index: id as u32 };
                assert(r.index as usize == id);
            }
        }
    }

    /// Adds a core module; returns the index it takes among the core
    /// modules.
    pub fn add_module(&mut self, module: Module) -> (r: ModuleID)
        requires
            old(self).can_add(Space::CoreModule, ComponentSection::Module),
        ensures
            final(self).modules@ == old(self).modules@.push(module),
            final(self).grew(*old(self), Space::CoreModule, ComponentSection::Module, old(self).modules@.len() as usize, r.0),
            old(self).scope().space(Space::CoreModule).counter() < u32::MAX ==> final(self).names_item(
                Space::CoreModule,
                ComponentSection::Module,
                old(self).modules@.len() as usize,
                r.0,
            ),
    {
        let idx = self.modules.len();
        let sp = module.index_space_of();
        let id = add_section_and_get_id(
            &mut self.index_store,
            self.space_id,
            &mut self.sections,
            &mut self.num_sections,
            sp,
            ComponentSection::Module,
            idx,
        );
        self.modules.push(module);
        proof {
            self.lemma_grew(*old(self), sp, ComponentSection::Module, idx, id);
        }
        ModuleID(id as u32)
    }

    /// Adds an import; returns the index it takes in the index space of
    /// the item it imports.
    fn add_import_internal(&mut self, import: ComponentImport) -> (r: u32)
        requires
            old(self).can_add(import.space_of(), ComponentSection::ComponentImport),
        ensures
            final(self).imports@ == old(self).imports@.push(import),
            final(self).grew(*old(self), import.space_of(), ComponentSection::ComponentImport, old(self).imports@.len() as usize, r),
            old(self).scope().space(import.space_of()).counter() < u32::MAX ==> final(self).names_item(
                import.space_of(),
                ComponentSection::ComponentImport,
                old(self).imports@.len() as usize,
                r,
            ),
    {
        let idx = self.imports.len();
        let sp = import.index_space_of();
        let id = add_section_and_get_id(
            &mut self.index_store,
            self.space_id,
            &mut self.sections,
            &mut self.num_sections,
            sp,
            ComponentSection::ComponentImport,
            idx,
        );
        self.imports.push(import);
        proof {
            self.lemma_grew(*old(self), sp, ComponentSection::ComponentImport, idx, id);
        }
        id as u32
    }

    /// Import a core module typed by the core module type at `type_idx`. Returns the index it takes in its index space.
    pub fn add_import_core_module(&mut self, name: String, type_idx: u32) -> (r: ModuleID)
        requires
            old(self).can_add(Space::CoreModule, ComponentSection::ComponentImport),
        ensures
            final(self).imports@ == old(self).imports@.push(
                (ComponentImport { name, ty: ComponentTypeRef::Module(type_idx) }),
            ),
            final(self).grew(*old(self), Space::CoreModule, ComponentSection::ComponentImport, old(self).imports@.len() as usize, r.0),
            old(self).scope().space(Space::CoreModule).counter() < u32::MAX ==> final(self).names_item(
                Space::CoreModule,
                ComponentSection::ComponentImport,
                old(self).imports@.len() as usize,
                r.0,
            ),
    {
        let id = self.add_import_internal(ComponentImport { name, ty: ComponentTypeRef::Module(type_idx) });
        ModuleID(id)
    }

    /// Import a component typed by the component type at `type_idx`. Returns the index it takes in its index space.
    pub fn add_import_component(&mut self, name: String, type_idx: u32) -> (r: ComponentId)
        requires
            old(self).can_add(Space::Comp, ComponentSection::ComponentImport),
        ensures
            final(self).imports@ == old(self).imports@.push(
                (ComponentImport { name, ty: ComponentTypeRef::Component(type_idx) }),
            ),
            final(self).grew(*old(self), Space::Comp, ComponentSection::ComponentImport, old(self).imports@.len() as usize, r.0),
            old(self).scope().space(Space::Comp).counter() < u32::MAX ==> final(self).names_item(
                Space::Comp,
                ComponentSection::ComponentImport,
                old(self).imports@.len() as usize,
                r.0,
            ),
    {
        let id = self.add_import_internal(ComponentImport { name, ty: ComponentTypeRef::Component(type_idx) });
        ComponentId(id)
    }

    /// Import a component instance typed by the instance type at `type_idx`. Returns the index it takes in its index space.
    pub fn add_import_component_instance(&mut self, name: String, type_idx: u32) -> (r: ComponentInstanceId)
        requires
            old(self).can_add(Space::CompInst, ComponentSection::ComponentImport),
        ensures
            final(self).imports@ == old(self).imports@.push(
                (ComponentImport { name, ty: ComponentTypeRef::Instance(type_idx) }),
            ),
            final(self).grew(*old(self), Space::CompInst, ComponentSection::ComponentImport, old(self).imports@.len() as usize, r.0),
            old(self).scope().space(Space::CompInst).counter() < u32::MAX ==> final(self).names_item(
                Space::CompInst,
                ComponentSection::ComponentImport,
                old(self).imports@.len() as usize,
                r.0,
            ),
    {
        let id = self.add_import_internal(ComponentImport { name, ty: ComponentTypeRef::Instance(type_idx) });
        ComponentInstanceId(id)
    }

    /// Import a component-level function typed by the function type at `type_idx`. Returns the index it takes in its index space.
    pub fn add_import_component_func(&mut self, name: String, type_idx: u32) -> (r: ComponentFunctionId)
        requires
            old(self).can_add(Space::CompFunc, ComponentSection::ComponentImport),
        ensures
            final(self).imports@ == old(self).imports@.push(
                (ComponentImport { name, ty: ComponentTypeRef::Func(type_idx) }),
            ),
            final(self).grew(*old(self), Space::CompFunc, ComponentSection::ComponentImport, old(self).imports@.len() as usize, r.0),
            old(self).scope().space(Space::CompFunc).counter() < u32::MAX ==> final(self).names_item(
                Space::CompFunc,
                ComponentSection::ComponentImport,
                old(self).imports@.len() as usize,
                r.0,
            ),
    {
        let id = self.add_import_internal(ComponentImport { name, ty: ComponentTypeRef::Func(type_idx) });
        ComponentFunctionId(id)
    }

    /// Import a component value of type `val_ty`. Returns the index it takes in its index space.
    pub fn add_import_component_value(&mut self, name: String, val_ty: ComponentValType) -> (r: ValueID)
        requires
            old(self).can_add(Space::CompVal, ComponentSection::ComponentImport),
        ensures
            final(self).imports@ == old(self).imports@.push(
                (ComponentImport { name, ty: ComponentTypeRef::Value(val_ty) }),
            ),
            final(self).grew(*old(self), Space::CompVal, ComponentSection::ComponentImport, old(self).imports@.len() as usize, r.0),
            old(self).scope().space(Space::CompVal).counter() < u32::MAX ==> final(self).names_item(
                Space::CompVal,
                ComponentSection::ComponentImport,
                old(self).imports@.len() as usize,
                r.0,
            ),
    {
        let id = self.add_import_internal(ComponentImport { name, ty: ComponentTypeRef::Value(val_ty) });
        ValueID(id)
    }

    /// Import a component type subject to `bounds`. Returns the index it takes in its index space.
    pub fn add_import_component_type(&mut self, name: String, bounds: TypeBounds) -> (r: ComponentTypeId)
        requires
            old(self).can_add(Space::CompType, ComponentSection::ComponentImport),
        ensures
            final(self).imports@ == old(self).imports@.push(
                (ComponentImport { name, ty: ComponentTypeRef::Type(bounds) }),
            ),
            final(self).grew(*old(self), Space::CompType, ComponentSection::ComponentImport, old(self).imports@.len() as usize, r.0),
            old(self).scope().space(Space::CompType).counter() < u32::MAX ==> final(self).names_item(
                Space::CompType,
                ComponentSection::ComponentImport,
                old(self).imports@.len() as usize,
                r.0,
            ),
    {
        let id = self.add_import_internal(ComponentImport { name, ty: ComponentTypeRef::Type(bounds) });
        ComponentTypeId(id)
    }

    /// Adds an export; returns the index it takes in the index space of
    /// the item it exports.
    fn add_export_internal(&mut self, export: ComponentExport) -> (r: u32)
        requires
            old(self).can_add(export.space_of(), ComponentSection::ComponentExport),
        ensures
            final(self).exports@ == old(self).exports@.push(export),
            final(self).grew(*old(self), export.space_of(), ComponentSection::ComponentExport, old(self).exports@.len() as usize, r),
            old(self).scope().space(export.space_of()).counter() < u32::MAX ==> final(self).names_item(
                export.space_of(),
                ComponentSection::ComponentExport,
                old(self).exports@.len() as usize,
                r,
            ),
    {
        let idx = self.exports.len();
        let sp = export.index_space_of();
        let id = add_section_and_get_id(
            &mut self.index_store,
            self.space_id,
            &mut self.sections,
            &mut self.num_sections,
            sp,
            ComponentSection::ComponentExport,
            idx,
        );
        self.exports.push(export);
        proof {
            self.lemma_grew(*old(self), sp, ComponentSection::ComponentExport, idx, id);
        }
        id as u32
    }

    /// Exports the core module at `idx` under `name`. Exporting binds the item
    /// anew: the export takes a fresh index in the same index space, which
    /// is returned.
    pub fn add_export_core_module(&mut self, name: String, idx: ModuleID, ty: Option<ComponentTypeRef>) -> (r: ModuleID)
        requires
            old(self).can_add(Space::CoreModule, ComponentSection::ComponentExport),
        ensures
            final(self).exports@ == old(self).exports@.push(
                (ComponentExport { name, kind: CompExternKind::Module, index: idx.0, ty }),
            ),
            final(self).grew(*old(self), Space::CoreModule, ComponentSection::ComponentExport, old(self).exports@.len() as usize, r.0),
            old(self).scope().space(Space::CoreModule).counter() < u32::MAX ==> final(self).names_item(
                Space::CoreModule,
                ComponentSection::ComponentExport,
                old(self).exports@.len() as usize,
                r.0,
            ),
    {
        let id = self.add_export_internal(ComponentExport { name, kind: CompExternKind::Module, index: idx.0, ty });
        ModuleID(id)
    }

    /// Exports the nested component at `idx` under `name`. The export takes
    /// a fresh index, which is returned; an exported component takes its
    /// place in the component instance index space.
    pub fn add_export_component(&mut self, name: String, idx: ComponentId, ty: Option<ComponentTypeRef>) -> (r: ComponentId)
        requires
            old(self).can_add(Space::CompInst, ComponentSection::ComponentExport),
        ensures
            final(self).exports@ == old(self).exports@.push(
                (ComponentExport { name, kind: CompExternKind::Component, index: idx.0, ty }),
            ),
            final(self).grew(*old(self), Space::CompInst, ComponentSection::ComponentExport, old(self).exports@.len() as usize, r.0),
            old(self).scope().space(Space::CompInst).counter() < u32::MAX ==> final(self).names_item(
                Space::CompInst,
                ComponentSection::ComponentExport,
                old(self).exports@.len() as usize,
                r.0,
            ),
    {
        let id = self.add_export_internal(ComponentExport { name, kind: CompExternKind::Component, index: idx.0, ty });
        ComponentId(id)
    }

    /// Exports the component instance at `idx` under `name`. Exporting binds the item
    /// anew: the export takes a fresh index in the same index space, which
    /// is returned.
    pub fn add_export_component_instance(&mut self, name: String, idx: ComponentInstanceId, ty: Option<ComponentTypeRef>) -> (r: ComponentInstanceId)
        requires
            old(self).can_add(Space::CompInst, ComponentSection::ComponentExport),
        ensures
            final(self).exports@ == old(self).exports@.push(
                (ComponentExport { name, kind: CompExternKind::Instance, index: idx.0, ty }),
            ),
            final(self).grew(*old(self), Space::CompInst, ComponentSection::ComponentExport, old(self).exports@.len() as usize, r.0),
            old(self).scope().space(Space::CompInst).counter() < u32::MAX ==> final(self).names_item(
                Space::CompInst,
                ComponentSection::ComponentExport,
                old(self).exports@.len() as usize,
                r.0,
            ),
    {
        let id = self.add_export_internal(ComponentExport { name, kind: CompExternKind::Instance, index: idx.0, ty });
        ComponentInstanceId(id)
    }

    /// Exports the component-level function at `idx` under `name`. Exporting binds the item
    /// anew: the export takes a fresh index in the same index space, which
    /// is returned.
    pub fn add_export_component_func(&mut self, name: String, idx: ComponentFunctionId, ty: Option<ComponentTypeRef>) -> (r: ComponentFunctionId)
        requires
            old(self).can_add(Space::CompFunc, ComponentSection::ComponentExport),
        ensures
            final(self).exports@ == old(self).exports@.push(
                (ComponentExport { name, kind: CompExternKind::Func, index: idx.0, ty }),
            ),
            final(self).grew(*old(self), Space::CompFunc, ComponentSection::ComponentExport, old(self).exports@.len() as usize, r.0),
            old(self).scope().space(Space::CompFunc).counter() < u32::MAX ==> final(self).names_item(
                Space::CompFunc,
                ComponentSection::ComponentExport,
                old(self).exports@.len() as usize,
                r.0,
            ),
    {
        let id = self.add_export_internal(ComponentExport { name, kind: CompExternKind::Func, index: idx.0, ty });
        ComponentFunctionId(id)
    }

    /// Exports the component value at `idx` under `name`. Exporting binds the item
    /// anew: the export takes a fresh index in the same index space, which
    /// is returned.
    pub fn add_export_component_value(&mut self, name: String, idx: ValueID, ty: Option<ComponentTypeRef>) -> (r: ValueID)
        requires
            old(self).can_add(Space::CompVal, ComponentSection::ComponentExport),
        ensures
            final(self).exports@ == old(self).exports@.push(
                (ComponentExport { name, kind: CompExternKind::Value, index: idx.0, ty }),
            ),
            final(self).grew(*old(self), Space::CompVal, ComponentSection::ComponentExport, old(self).exports@.len() as usize, r.0),
            old(self).scope().space(Space::CompVal).counter() < u32::MAX ==> final(self).names_item(
                Space::CompVal,
                ComponentSection::ComponentExport,
                old(self).exports@.len() as usize,
                r.0,
            ),
    {
        let id = self.add_export_internal(ComponentExport { name, kind: CompExternKind::Value, index: idx.0, ty });
        ValueID(id)
    }

    /// Exports the component type at `idx` under `name`. Exporting binds the item
    /// anew: the export takes a fresh index in the same index space, which
    /// is returned.
    pub fn add_export_component_type(&mut self, name: String, idx: ComponentTypeId, ty: Option<ComponentTypeRef>) -> (r: ComponentTypeId)
        requires
            old(self).can_add(Space::CompType, ComponentSection::ComponentExport),
        ensures
            final(self).exports@ == old(self).exports@.push(
                (ComponentExport { name, kind: CompExternKind::Type, index: idx.0, ty }),
            ),
            final(self).grew(*old(self), Space::CompType, ComponentSection::ComponentExport, old(self).exports@.len() as usize, r.0),
            old(self).scope().space(Space::CompType).counter() < u32::MAX ==> final(self).names_item(
                Space::CompType,
                ComponentSection::ComponentExport,
                old(self).exports@.len() as usize,
                r.0,
            ),
    {
        let id = self.add_export_internal(ComponentExport { name, kind: CompExternKind::Type, index: idx.0, ty });
        ComponentTypeId(id)
    }

    /// Adds a component type; returns the index it takes among the component
    /// types.
    pub fn add_component_type(&mut self, component_ty: ComponentType) -> (r: ComponentTypeId)
        requires
            old(self).can_add(Space::CompType, ComponentSection::ComponentType),
        ensures
            final(self).component_types.items@ == old(self).component_types.items@.push(component_ty),
            final(self).grew(*old(self), Space::CompType, ComponentSection::ComponentType, old(self).component_types.items@.len() as usize, r.0),
            old(self).scope().space(Space::CompType).counter() < u32::MAX ==> final(self).names_item(
                Space::CompType,
                ComponentSection::ComponentType,
                old(self).component_types.items@.len() as usize,
                r.0,
            ),
    {
        let sp = component_ty.index_space_of();
        let idx = self.component_types.items.len();
        self.component_types.add(component_ty);
        let id = add_section_and_get_id(
            &mut self.index_store,
            self.space_id,
            &mut self.sections,
            &mut self.num_sections,
            sp,
            ComponentSection::ComponentType,
            idx,
        );
        proof {
            self.lemma_grew(*old(self), sp, ComponentSection::ComponentType, idx, id);
        }
        ComponentTypeId(id as u32)
    }

    /// Adds a core type; returns the index it takes among the core types. The
    /// type takes one index, whatever it holds.
    pub fn add_core_type(&mut self, ty: CoreType) -> (r: CoreTypeId)
        requires
            old(self).can_add(Space::CoreType, ComponentSection::CoreType),
        ensures
            final(self).core_types@ == old(self).core_types@.push(ty),
            final(self).grew(*old(self), Space::CoreType, ComponentSection::CoreType, old(self).core_types@.len() as usize, r.0),
            old(self).scope().space(Space::CoreType).counter() < u32::MAX ==> final(self).names_item(
                Space::CoreType,
                ComponentSection::CoreType,
                old(self).core_types@.len() as usize,
                r.0,
            ),
    {
        let sp = ty.index_space_of();
        let idx = self.core_types.len();
        self.core_types.push(ty);
        let id = add_section_and_get_id(
            &mut self.index_store,
            self.space_id,
            &mut self.sections,
            &mut self.num_sections,
            sp,
            ComponentSection::CoreType,
            idx,
        );
        proof {
            self.lemma_grew(*old(self), sp, ComponentSection::CoreType, idx, id);
        }
        CoreTypeId(id as u32)
    }

    /// Adds a core instance; returns the index it takes among the core
    /// instances.
    pub fn add_core_instance(&mut self, instance: Instance) -> (r: CoreInstanceId)
        requires
            old(self).can_add(Space::CoreInst, ComponentSection::CoreInstance),
        ensures
            final(self).instances@ == old(self).instances@.push(instance),
            final(self).grew(*old(self), Space::CoreInst, ComponentSection::CoreInstance, old(self).instances@.len() as usize, r.0),
            old(self).scope().space(Space::CoreInst).counter() < u32::MAX ==> final(self).names_item(
                Space::CoreInst,
                ComponentSection::CoreInstance,
                old(self).instances@.len() as usize,
                r.0,
            ),
    {
        let sp = instance.index_space_of();
        let idx = self.instances.len();
        self.instances.push(instance);
        let id = add_section_and_get_id(
            &mut self.index_store,
            self.space_id,
            &mut self.sections,
            &mut self.num_sections,
            sp,
            ComponentSection::CoreInstance,
            idx,
        );
        proof {
            self.lemma_grew(*old(self), sp, ComponentSection::CoreInstance, idx, id);
        }
        CoreInstanceId(id as u32)
    }

    /// Adds a component instance; returns the index it takes among the
    /// component instances.
    pub fn add_component_instance(&mut self, instance: ComponentInstance) -> (r: ComponentInstanceId)
        requires
            old(self).can_add(Space::CompInst, ComponentSection::ComponentInstance),
        ensures
            final(self).component_instance@ == old(self).component_instance@.push(instance),
            final(self).grew(*old(self), Space::CompInst, ComponentSection::ComponentInstance, old(self).component_instance@.len() as usize, r.0),
            old(self).scope().space(Space::CompInst).counter() < u32::MAX ==> final(self).names_item(
                Space::CompInst,
                ComponentSection::ComponentInstance,
                old(self).component_instance@.len() as usize,
                r.0,
            ),
    {
        let sp = instance.index_space_of();
        let idx = self.component_instance.len();
        self.component_instance.push(instance);
        let id = add_section_and_get_id(
            &mut self.index_store,
            self.space_id,
            &mut self.sections,
            &mut self.num_sections,
            sp,
            ComponentSection::ComponentInstance,
            idx,
        );
        proof {
            self.lemma_grew(*old(self), sp, ComponentSection::ComponentInstance, idx, id);
        }
        ComponentInstanceId(id as u32)
    }

    /// Adds an alias; returns the index it takes in the index space of the
    /// item it aliases.
    fn add_alias_internal(&mut self, alias: ComponentAlias) -> (r: AliasId)
        requires
            old(self).can_add(alias.space_of(), ComponentSection::Alias),
        ensures
            final(self).alias.items@ == old(self).alias.items@.push(alias),
            r.space() == alias.space_of(),
            final(self).grew(*old(self), alias.space_of(), ComponentSection::Alias, old(self).alias.items@.len() as usize, r.id()),
            old(self).scope().space(alias.space_of()).counter() < u32::MAX ==> final(self).names_item(
                alias.space_of(),
                ComponentSection::Alias,
                old(self).alias.items@.len() as usize,
                r.id(),
            ),
    {
        let space = alias.index_space_of();
        let idx = self.alias.add(alias);
        let id = add_section_and_get_id(
            &mut self.index_store,
            self.space_id,
            &mut self.sections,
            &mut self.num_sections,
            space,
            ComponentSection::Alias,
            idx,
        );
        proof {
            self.lemma_grew(*old(self), space, ComponentSection::Alias, idx, id);
        }
        AliasId::new(space, id as u32)
    }

    /// Adds an alias of export `name` of the component instance at
    /// `instance_index`. Returns the index it takes in the index space of the
    /// aliased item, whose kind is `kind`.
    pub fn add_alias_instance_export(&mut self, kind: CompExternKind, instance_index: u32, name: String) -> (r: AliasId)
        requires
            old(self).can_add(kind.space_of(), ComponentSection::Alias),
        ensures
            final(self).alias.items@ == old(self).alias.items@.push((ComponentAlias::InstanceExport { kind, instance_index, name })),
            r.space() == kind.space_of(),
            final(self).grew(*old(self), kind.space_of(), ComponentSection::Alias, old(self).alias.items@.len() as usize, r.id()),
            old(self).scope().space(kind.space_of()).counter() < u32::MAX ==> final(self).names_item(
                kind.space_of(),
                ComponentSection::Alias,
                old(self).alias.items@.len() as usize,
                r.id(),
            ),
    {
        self.add_alias_internal(ComponentAlias::InstanceExport { kind, instance_index, name })
    }

    /// Adds an alias of export `name` of the core instance at
    /// `instance_index`. Returns the index it takes in the index space of the
    /// aliased item, whose kind is `kind`.
    pub fn add_alias_core_instance_export(&mut self, kind: CoreExternKind, instance_index: u32, name: String) -> (r: AliasId)
        requires
            old(self).can_add(kind.space_of(), ComponentSection::Alias),
        ensures
            final(self).alias.items@ == old(self).alias.items@.push((ComponentAlias::CoreInstanceExport { kind, instance_index, name })),
            r.space() == kind.space_of(),
            final(self).grew(*old(self), kind.space_of(), ComponentSection::Alias, old(self).alias.items@.len() as usize, r.id()),
            old(self).scope().space(kind.space_of()).counter() < u32::MAX ==> final(self).names_item(
                kind.space_of(),
                ComponentSection::Alias,
                old(self).alias.items@.len() as usize,
                r.id(),
            ),
    {
        self.add_alias_internal(ComponentAlias::CoreInstanceExport { kind, instance_index, name })
    }

    /// Adds an alias of the item at `index` of the component `count`
    /// levels out. Returns the index it takes in the index space of the
    /// aliased item, whose kind is `kind`.
    pub fn add_alias_outer(&mut self, kind: OuterAliasKind, count: u32, index: u32) -> (r: AliasId)
        requires
            old(self).can_add(kind.space_of(), ComponentSection::Alias),
        ensures
            final(self).alias.items@ == old(self).alias.items@.push((ComponentAlias::Outer { kind, count, index })),
            r.space() == kind.space_of(),
            final(self).grew(*old(self), kind.space_of(), ComponentSection::Alias, old(self).alias.items@.len() as usize, r.id()),
            old(self).scope().space(kind.space_of()).counter() < u32::MAX ==> final(self).names_item(
                kind.space_of(),
                ComponentSection::Alias,
                old(self).alias.items@.len() as usize,
                r.id(),
            ),
    {
        self.add_alias_internal(ComponentAlias::Outer { kind, count, index })
    }

    /// Adds a canonical function; returns the index it takes: among the
    /// component functions for a lifted function or a thread-spawn
    /// built-in, among the core functions otherwise.
    pub fn add_canon_func(&mut self, canon: CanonicalFunction) -> (r: CanonFuncId)
        requires
            old(self).can_add(canon.space_of(), ComponentSection::Canon),
        ensures
            final(self).canons.items@ == old(self).canons.items@.push(canon),
            r.space() == canon.space_of(),
            final(self).grew(*old(self), canon.space_of(), ComponentSection::Canon, old(self).canons.items@.len() as usize, r.id()),
            old(self).scope().space(canon.space_of()).counter() < u32::MAX ==> final(self).names_item(
                canon.space_of(),
                ComponentSection::Canon,
                old(self).canons.items@.len() as usize,
                r.id(),
            ),
    {
        let space = canon.index_space_of();
        let idx = self.canons.add(canon);
        let id = add_section_and_get_id(
            &mut self.index_store,
            self.space_id,
            &mut self.sections,
            &mut self.num_sections,
            space,
            ComponentSection::Canon,
            idx,
        );
        proof {
            self.lemma_grew(*old(self), space, ComponentSection::Canon, idx, id);
        }
        CanonFuncId::new(space, id as u32)
    }

    /// Adds a custom section; returns its position among the custom
    /// sections.
    pub fn add_custom_section(&mut self, section: CustomSection) -> (r: CustomSectionID)
        requires
            old(self).can_add(Space::NA, ComponentSection::CustomSection),
        ensures
            final(self).custom_sections@ == old(self).custom_sections@.push(section),
            final(self).grew(*old(self), Space::NA, ComponentSection::CustomSection, old(self).custom_sections@.len() as usize, r.0),
    {
        let idx = self.custom_sections.len();
        self.custom_sections.push(section);
        add_section(&mut self.sections, &mut self.num_sections, ComponentSection::CustomSection);
        proof {
            self.lemma_grew(*old(self), Space::NA, ComponentSection::CustomSection, idx, idx);
        }
        CustomSectionID(idx as u32)
    }

    /// Appends the nested component `sub`, gives it the next index among
    /// the nested components, and records the scope it owns.
    fn register_sub_component(&mut self, sub: Component) -> (r: ComponentId)
        requires
            old(self).can_add(Space::Comp, ComponentSection::Component),
        ensures
            final(self).components@ == old(self).components@.push(sub),
            final(self).grew(*old(self), Space::Comp, ComponentSection::Component, old(self).components@.len() as usize, r.0),
            old(self).scope().space(Space::Comp).counter() < u32::MAX ==> final(self).names_item(
                Space::Comp,
                ComponentSection::Component,
                old(self).components@.len() as usize,
                r.0,
            ),
            final(self).scope_registry.comp_map() == old(self).scope_registry.comp_map().insert(sub.uid.0, sub.space_id),
            final(self).scope_registry.node_map() == old(self).scope_registry.node_map(),
            final(self).scope_registry.next_uid_val() == old(self).scope_registry.next_uid_val(),
    {
        let idx = self.components.len();
        self.scope_registry.register_comp(sub.uid, sub.space_id);
        let id = add_section_and_get_id(
            &mut self.index_store,
            self.space_id,
            &mut self.sections,
            &mut self.num_sections,
            Space::Comp,
            ComponentSection::Component,
            idx,
        );
        self.components.push(sub);
        proof {
            self.lemma_grew(*old(self), Space::Comp, ComponentSection::Component, idx, id);
        }
        ComponentId(id as u32)
    }

    /// Adds a nested component that starts empty, with the next unique
    /// identity of the registry, and is then filled by `f`; returns the
    /// index it takes among the nested components. The component added is
    /// the one `f` left, registered under its identity.
    pub fn add_component<F>(&mut self, f: F) -> (r: ComponentId)
        where
            F: FnOnce(&mut Component),
        requires
            old(self).can_add(Space::Comp, ComponentSection::Component),
            old(self).scope_registry.next_uid_val() < u32::MAX,
            forall|c: &mut Component| f.requires((c,)),
        ensures
            final(self).components@.len() == old(self).components@.len() + 1,
            final(self).components@.drop_last() == old(self).components@,
            final(self).grew(*old(self), Space::Comp, ComponentSection::Component, old(self).components@.len() as usize, r.0),
            old(self).scope().space(Space::Comp).counter() < u32::MAX ==> final(self).names_item(
                Space::Comp,
                ComponentSection::Component,
                old(self).components@.len() as usize,
                r.0,
            ),
            final(self).scope_registry.next_uid_val() == old(self).scope_registry.next_uid_val() + 1,
            final(self).scope_registry.node_map() == old(self).scope_registry.node_map(),
            exists|c: &mut Component| #![trigger f.ensures((c,), ())]
                (*c).realizes(Built::empty()) && (*c).unique_id() == old(self).scope_registry.next_uid_val()
                && f.ensures((c,), ()) && final(self).components@.last() == *final(c),
            final(self).scope_registry.comp_map() == old(self).scope_registry.comp_map().insert(
                final(self).components@.last().uid.0,
                final(self).components@.last().space_id,
            ),
    {
        let uid = self.scope_registry.alloc_uid();
        let mut sub = Component::empty(uid);
        f(&mut sub);
        self.register_sub_component(sub)
    }

    /// Parses `bytes` as a component binary and adds the component it
    /// describes as a nested component, with the next unique identity of
    /// the registry; its own nested components take the identities after
    /// it. Returns the index it takes among the nested components, or the
    /// error that parsing it gave, and then adds nothing.
    pub fn add_component_from_bytes(&mut self, bytes: &[u8]) -> (r: Result<ComponentId, Error>)
        requires
            old(self).can_add(Space::Comp, ComponentSection::Component),
            old(self).scope_registry.next_uid_val() < u32::MAX - 1,
        ensures
            ({
                let ps = payloads_of(bytes@);
                let uid = old(self).scope_registry.next_uid_val();
                let n = old(self).components@.len();
                &&& final(self).scope_registry.next_uid_val() > uid
                &&& total_weight(ps) >= nested_weight_limit(uid) ==> r == Err::<ComponentId, Error>(Error::TooManyItems)
                &&& total_weight(ps) < nested_weight_limit(uid) ==> match parse_spec(ps.reverse(), Built::empty()) {
                    Ok(b) => {
                        &&& r matches Ok(id)
                        &&& final(self).components@.len() == n + 1
                        &&& final(self).components@.drop_last() == old(self).components@
                        &&& final(self).components@[n as int].realizes(b)
                        &&& final(self).components@[n as int].unique_id() == uid
                        &&& final(self).grew(*old(self), Space::Comp, ComponentSection::Component, n as usize, id.0)
                        &&& old(self).scope().space(Space::Comp).counter() < u32::MAX ==> final(self).names_item(
                            Space::Comp,
                            ComponentSection::Component,
                            n as usize,
                            id.0,
                        )
                    },
                    Err(e) => r == Err::<ComponentId, Error>(e),
                }
                &&& r is Err ==> {
                    &&& final(self).keeps_all_but(*old(self), ComponentSection::Component)
                    &&& final(self).components@ == old(self).components@
                    &&& final(self).sections@ == old(self).sections@
                    &&& final(self).index_store == old(self).index_store
                    &&& final(self).num_sections == old(self).num_sections
                }
            }),
    {
        let uid = self.scope_registry.alloc_uid();
        let payloads = read_payloads(bytes);
        let limit: u64 = (4294967294u32 - uid.0) as u64;
        if !payloads_fit(&payloads, limit) {
            return Err(Error::TooManyItems);
        }
        proof {
            lemma_total_weight_reverse(payloads@);
        }
        let stack = Component::into_stack(payloads);
        let mut next: u32 = uid.0 + 1;
        match Component::build(stack, uid, &mut next) {
            Err(e) => Err(e),
            Ok(sub) => {
                self.scope_registry.reserve_uids(next);
                proof {
                    assert(self.can_add(Space::Comp, ComponentSection::Component));
                }
                let id = self.register_sub_component(sub);
                Ok(id)
            },
        }
    }
}

/// The greatest weight the payloads of a component added as a nested
/// component may have, when it takes the unique identity `uid`: it and
/// its own nested components must be numbered by `u32` identities.
pub open spec fn nested_weight_limit(uid: u32) -> nat {
    (u32::MAX - 1 - uid) as nat
}


/// `a` is the start of `b`.
pub open spec fn prefix_of<T>(a: Seq<T>, b: Seq<T>) -> bool {
    &&& a.len() <= b.len()
    &&& forall|i: int| 0 <= i < a.len() ==> a[i] == #[trigger] b[i]
}

/// Adding an item to a component changes no reference that resolved
/// before: it still resolves, to the same item.
pub proof fn law_add_keeps_references(
    old: Component,
    new: Component,
    sp: Space,
    sect: ComponentSection,
    idx: usize,
    id: u32,
    r: IndexedRef,
)
    requires
        old.wf(),
        new.grew(old, sp, sect, idx, id),
        old.resolvable(r),
    ensures
        new.resolvable(r),
        new.resolve_spec(r) == old.resolve_spec(r),
{
    old.lemma_resolvable_within(r);
    let b = old.scope().space(r.space);
    let a = new.scope().space(r.space);
    let other = r.index as usize;
    assert(b.cache() == Map::<usize, (SpaceSubtype, usize, Option<usize>)>::empty());
    assert(a.cache() == Map::<usize, (SpaceSubtype, usize, Option<usize>)>::empty());
    if sp != Space::NA && r.space == sp {
        let (s1, i1) = choose|s1: SpaceSubtype, i1: usize| #[trigger] b.holds(other, s1, i1);
        assert(b.holds(other, s1, i1));
        assert(b.wf());
        let n = b.counter();
        assert(other < n);
        IdxSpace::lemma_assign_keeps_other_places(b, a, sect, idx, n, other);
    }
}

} // verus!
