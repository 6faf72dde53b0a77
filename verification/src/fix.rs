//! Rewriting the indices that an item holds to the actual IDs
//! that the assign phase gave the items they name, as the encode phase
//! writes them.
//!
//! Every index names an item of the scope that holds the node, in the
//! index space that the node's references give it; only an outer alias
//! reaches out, `count` scopes, to an enclosing component.

use vstd::prelude::*;
use crate::assign::ActualIds;
use crate::idx_spaces::{Space, ScopeId, IndexSpaceOf};
use crate::items::{
    CanonicalFunction, CanonicalOption, ComponentValType, ComponentTypeRef, TypeBounds, ComponentImport, ComponentExport,
    ComponentAlias, ComponentInstance, ComponentInstantiationArg, Instance, InstantiationArg, Export, ComponentStartFunction,
    ComponentDefinedType, ComponentType, ComponentFuncType, VariantCase,
};
use crate::kinds::{CompExternKind, CoreExternKind, OuterAliasKind, InstantiationArgKind};
use crate::refs::{IndexedRef, Depth, RefKind, GetTypeRefs, GetFuncRefs, GetMemRefs, GetItemRef};
use crate::item_refs::plain;

verus! {

/// Index `index` of space `sp` has, in scope `s`, an actual ID that a
/// binary can hold.
pub open spec fn has_actual(ids: ActualIds, s: ScopeId, sp: Space, index: u32) -> bool {
    &&& sp != Space::NA
    &&& ids.prior_map(s, sp).contains_key(index as usize)
    &&& ids.prior_map(s, sp)[index as usize] <= u32::MAX
}

/// The actual ID of index `index` of space `sp` in scope `s`.
pub open spec fn actual(ids: ActualIds, s: ScopeId, sp: Space, index: u32) -> u32 {
    ids.prior_map(s, sp)[index as usize] as u32
}

/// Looks up the actual ID of index `index` of space `sp` in scope `s`.
fn lookup(ids: &ActualIds, s: ScopeId, sp: Space, index: u32) -> (r: u32)
    requires
        ids.scope_map().contains_key(s),
        has_actual(*ids, s, sp, index),
    ensures
        r == actual(*ids, s, sp, index),
{
    let rf = IndexedRef { depth: Depth::default(), space: sp, index };
    let a = ids.lookup_actual_id_or_panic(s, &rf);
    a as u32
}

/// Every index option `o` holds has an actual ID in scope `s`.
pub open spec fn option_fixable(o: CanonicalOption, ids: ActualIds, s: ScopeId) -> bool {
    match o {
        CanonicalOption::Memory(i) => has_actual(ids, s, Space::CoreMemory, i),
        CanonicalOption::Realloc(i) => has_actual(ids, s, Space::CoreFunc, i),
        CanonicalOption::PostReturn(i) => has_actual(ids, s, Space::CoreFunc, i),
        CanonicalOption::Callback(i) => has_actual(ids, s, Space::CoreFunc, i),
        CanonicalOption::CoreType(i) => has_actual(ids, s, Space::CoreType, i),
        _ => true,
    }
}

/// Option `o` with each index it holds replaced by its actual ID.
pub open spec fn fixed_option(o: CanonicalOption, ids: ActualIds, s: ScopeId) -> CanonicalOption {
    match o {
        CanonicalOption::Memory(i) => CanonicalOption::Memory(actual(ids, s, Space::CoreMemory, i)),
        CanonicalOption::Realloc(i) => CanonicalOption::Realloc(actual(ids, s, Space::CoreFunc, i)),
        CanonicalOption::PostReturn(i) => CanonicalOption::PostReturn(actual(ids, s, Space::CoreFunc, i)),
        CanonicalOption::Callback(i) => CanonicalOption::Callback(actual(ids, s, Space::CoreFunc, i)),
        CanonicalOption::CoreType(i) => CanonicalOption::CoreType(actual(ids, s, Space::CoreType, i)),
        other => other,
    }
}

/// Option `o` holding index `i` in place of the one it holds; an option
/// that holds no index as it is.
pub open spec fn with_index(o: CanonicalOption, i: u32) -> CanonicalOption {
    match o {
        CanonicalOption::Memory(_) => CanonicalOption::Memory(i),
        CanonicalOption::Realloc(_) => CanonicalOption::Realloc(i),
        CanonicalOption::PostReturn(_) => CanonicalOption::PostReturn(i),
        CanonicalOption::Callback(_) => CanonicalOption::Callback(i),
        CanonicalOption::CoreType(_) => CanonicalOption::CoreType(i),
        other => other,
    }
}

/// The references option `o` makes: to the core type, the core function
/// or the memory it names.
pub open spec fn option_all_refs(o: CanonicalOption) -> Seq<RefKind> {
    o.spec_type_refs() + o.spec_func_refs() + o.spec_mem_refs()
}

/// Fixing a canonical option keeps its kind and replaces only the index it
/// holds, by the actual ID of the item it refers to, in the index space of
/// that reference. An option that refers to no item is kept as it is.
pub proof fn law_fix_option_replaces_only_its_index(o: CanonicalOption, ids: ActualIds, s: ScopeId)
    ensures
        forall|x: u32| #[trigger] with_index(fixed_option(o, ids, s), x) == with_index(o, x),
        option_all_refs(o).len() <= 1,
        option_all_refs(o).len() == 0 ==> fixed_option(o, ids, s) == o,
        option_all_refs(o).len() == 1 ==> fixed_option(o, ids, s) == with_index(
            o,
            actual(ids, s, option_all_refs(o)[0].ref_.space, option_all_refs(o)[0].ref_.index),
        ),
{
    assert(option_all_refs(o) =~= match o {
        CanonicalOption::Memory(i) => seq![plain(Space::CoreMemory, i)],
        CanonicalOption::Realloc(i) => seq![plain(Space::CoreFunc, i)],
        CanonicalOption::PostReturn(i) => seq![plain(Space::CoreFunc, i)],
        CanonicalOption::Callback(i) => seq![plain(Space::CoreFunc, i)],
        CanonicalOption::CoreType(i) => seq![plain(Space::CoreType, i)],
        _ => Seq::<RefKind>::empty(),
    });
}

/// Every option of `os` can be fixed.
pub open spec fn options_fixable(os: Seq<CanonicalOption>, ids: ActualIds, s: ScopeId) -> bool {
    forall|k: int| 0 <= k < os.len() ==> option_fixable(#[trigger] os[k], ids, s)
}

/// `rs` is `os` with each option fixed.
pub open spec fn options_fixed(os: Seq<CanonicalOption>, rs: Seq<CanonicalOption>, ids: ActualIds, s: ScopeId) -> bool {
    &&& rs.len() == os.len()
    &&& forall|k: int| 0 <= k < os.len() ==> #[trigger] rs[k] == fixed_option(os[k], ids, s)
}

/// The type index that an optional result type holds can be fixed.
pub open spec fn result_fixable(t: Option<ComponentValType>, ids: ActualIds, s: ScopeId) -> bool {
    match t {
        Some(ComponentValType::Type(i)) => has_actual(ids, s, Space::CompType, i),
        _ => true,
    }
}

/// `r` is the optional result type `t` with its type index fixed.
pub open spec fn result_fixed(t: Option<ComponentValType>, r: Option<ComponentValType>, ids: ActualIds, s: ScopeId) -> bool {
    match t {
        Some(ComponentValType::Type(i)) => r == Some(ComponentValType::Type(actual(ids, s, Space::CompType, i))),
        Some(ComponentValType::Primitive(p)) => r == Some(ComponentValType::Primitive(p)),
        None => r is None,
    }
}

/// Every index that canonical function `c` holds has an actual ID in
/// scope `s`.
pub open spec fn canon_fixable(c: CanonicalFunction, ids: ActualIds, s: ScopeId) -> bool {
    match c {
        CanonicalFunction::Lift { core_func_index, type_index, options } => {
            &&& has_actual(ids, s, Space::CoreFunc, core_func_index)
            &&& has_actual(ids, s, Space::CompType, type_index)
            &&& options_fixable(options@, ids, s)
        },
        CanonicalFunction::Lower { func_index, options } => {
            &&& has_actual(ids, s, Space::CompFunc, func_index)
            &&& options_fixable(options@, ids, s)
        },
        CanonicalFunction::Resource { resource, .. } => has_actual(ids, s, Space::CompType, resource),
        CanonicalFunction::ThreadSpawnRef { func_ty_index } => has_actual(ids, s, Space::CompFunc, func_ty_index),
        CanonicalFunction::ThreadSpawnIndirect { func_ty_index, table_index } => {
            &&& has_actual(ids, s, Space::CoreType, func_ty_index)
            &&& has_actual(ids, s, Space::CoreTable, table_index)
        },
        CanonicalFunction::ThreadNewIndirect { func_ty_index, table_index } => {
            &&& has_actual(ids, s, Space::CoreType, func_ty_index)
            &&& has_actual(ids, s, Space::CoreTable, table_index)
        },
        CanonicalFunction::TaskReturn { result, options } => {
            &&& result_fixable(result, ids, s)
            &&& options_fixable(options@, ids, s)
        },
        CanonicalFunction::Typed { ty, .. } => has_actual(ids, s, Space::CompType, ty),
        CanonicalFunction::TypedWithOptions { ty, options, .. } => {
            &&& has_actual(ids, s, Space::CompType, ty)
            &&& options_fixable(options@, ids, s)
        },
        CanonicalFunction::ErrorContextNew { options } => options_fixable(options@, ids, s),
        CanonicalFunction::ErrorContextDebugMessage { options } => options_fixable(options@, ids, s),
        CanonicalFunction::WaitableSetWait { memory } => has_actual(ids, s, Space::CoreMemory, memory),
        CanonicalFunction::WaitableSetPoll { memory } => has_actual(ids, s, Space::CoreMemory, memory),
        CanonicalFunction::Builtin(_) => true,
    }
}

/// `r` is canonical function `c` with every index it holds replaced by the
/// actual ID of the item it names in scope `s`: the same built-in, the same
/// flags, options in the same order.
pub open spec fn canon_fixed(c: CanonicalFunction, r: CanonicalFunction, ids: ActualIds, s: ScopeId) -> bool {
    match c {
        CanonicalFunction::Lift { core_func_index, type_index, options } => r matches CanonicalFunction::Lift {
            core_func_index: a,
            type_index: t,
            options: o,
        } && a == actual(ids, s, Space::CoreFunc, core_func_index) && t == actual(ids, s, Space::CompType, type_index)
            && options_fixed(options@, o@, ids, s),
        CanonicalFunction::Lower { func_index, options } => r matches CanonicalFunction::Lower { func_index: f, options: o }
            && f == actual(ids, s, Space::CompFunc, func_index) && options_fixed(options@, o@, ids, s),
        CanonicalFunction::Resource { op, resource } => r == CanonicalFunction::Resource {
            op,
            resource: actual(ids, s, Space::CompType, resource),
        },
        CanonicalFunction::ThreadSpawnRef { func_ty_index } => r == CanonicalFunction::ThreadSpawnRef {
            func_ty_index: actual(ids, s, Space::CompFunc, func_ty_index),
        },
        CanonicalFunction::ThreadSpawnIndirect { func_ty_index, table_index } => r == CanonicalFunction::ThreadSpawnIndirect {
            func_ty_index: actual(ids, s, Space::CoreType, func_ty_index),
            table_index: actual(ids, s, Space::CoreTable, table_index),
        },
        CanonicalFunction::ThreadNewIndirect { func_ty_index, table_index } => r == CanonicalFunction::ThreadNewIndirect {
            func_ty_index: actual(ids, s, Space::CoreType, func_ty_index),
            table_index: actual(ids, s, Space::CoreTable, table_index),
        },
        CanonicalFunction::TaskReturn { result, options } => r matches CanonicalFunction::TaskReturn { result: t, options: o }
            && result_fixed(result, t, ids, s) && options_fixed(options@, o@, ids, s),
        CanonicalFunction::Typed { op, ty } => r == CanonicalFunction::Typed { op, ty: actual(ids, s, Space::CompType, ty) },
        CanonicalFunction::TypedWithOptions { op, ty, options } => r matches CanonicalFunction::TypedWithOptions {
            op: p,
            ty: t,
            options: o,
        } && p == op && t == actual(ids, s, Space::CompType, ty) && options_fixed(options@, o@, ids, s),
        CanonicalFunction::ErrorContextNew { options } => r matches CanonicalFunction::ErrorContextNew { options: o }
            && options_fixed(options@, o@, ids, s),
        CanonicalFunction::ErrorContextDebugMessage { options } => r matches CanonicalFunction::ErrorContextDebugMessage {
            options: o,
        } && options_fixed(options@, o@, ids, s),
        CanonicalFunction::WaitableSetWait { memory } => r == CanonicalFunction::WaitableSetWait {
            memory: actual(ids, s, Space::CoreMemory, memory),
        },
        CanonicalFunction::WaitableSetPoll { memory } => r == CanonicalFunction::WaitableSetPoll {
            memory: actual(ids, s, Space::CoreMemory, memory),
        },
        CanonicalFunction::Builtin(b) => r == CanonicalFunction::Builtin(b),
    }
}

/// Option `o` with each index it holds replaced by its actual ID in scope
/// `s`.
pub fn fix_option(o: &CanonicalOption, ids: &ActualIds, s: ScopeId) -> (r: CanonicalOption)
    requires
        ids.scope_map().contains_key(s),
        option_fixable(*o, *ids, s),
    ensures
        r == fixed_option(*o, *ids, s),
{
    match o {
        CanonicalOption::Memory(i) => CanonicalOption::Memory(lookup(ids, s, Space::CoreMemory, *i)),
        CanonicalOption::Realloc(i) => CanonicalOption::Realloc(lookup(ids, s, Space::CoreFunc, *i)),
        CanonicalOption::PostReturn(i) => CanonicalOption::PostReturn(lookup(ids, s, Space::CoreFunc, *i)),
        CanonicalOption::Callback(i) => CanonicalOption::Callback(lookup(ids, s, Space::CoreFunc, *i)),
        CanonicalOption::CoreType(i) => CanonicalOption::CoreType(lookup(ids, s, Space::CoreType, *i)),
        other => *other,
    }
}

/// The options `os` with each index replaced by its actual ID in scope `s`.
fn fix_options(os: &Vec<CanonicalOption>, ids: &ActualIds, s: ScopeId) -> (r: Vec<CanonicalOption>)
    requires
        ids.scope_map().contains_key(s),
        options_fixable(os@, *ids, s),
    ensures
        options_fixed(os@, r@, *ids, s),
{
    let mut out: Vec<CanonicalOption> = Vec::new();
    for k in 0..os.len()
        invariant
            ids.scope_map().contains_key(s),
            options_fixable(os@, *ids, s),
            out@.len() == k,
            forall|j: int| 0 <= j < k ==> #[trigger] out@[j] == fixed_option(os@[j], *ids, s),
    {
        let o = fix_option(&os[k], ids, s);
        out.push(o);
    }
    out
}

/// Canonical function `c` with every index it holds replaced by the actual
/// ID of the item it names in scope `s`, as the encode phase writes it.
pub fn fix_canon(c: &CanonicalFunction, ids: &ActualIds, s: ScopeId) -> (r: CanonicalFunction)
    requires
        ids.scope_map().contains_key(s),
        canon_fixable(*c, *ids, s),
    ensures
        canon_fixed(*c, r, *ids, s),
{
    match c {
        CanonicalFunction::Lift { core_func_index, type_index, options } => CanonicalFunction::Lift {
            core_func_index: lookup(ids, s, Space::CoreFunc, *core_func_index),
            type_index: lookup(ids, s, Space::CompType, *type_index),
            options: fix_options(options, ids, s),
        },
        CanonicalFunction::Lower { func_index, options } => CanonicalFunction::Lower {
            func_index: lookup(ids, s, Space::CompFunc, *func_index),
            options: fix_options(options, ids, s),
        },
        CanonicalFunction::Resource { op, resource } => CanonicalFunction::Resource {
            op: *op,
            resource: lookup(ids, s, Space::CompType, *resource),
        },
        CanonicalFunction::ThreadSpawnRef { func_ty_index } => CanonicalFunction::ThreadSpawnRef {
            func_ty_index: lookup(ids, s, Space::CompFunc, *func_ty_index),
        },
        CanonicalFunction::ThreadSpawnIndirect { func_ty_index, table_index } => CanonicalFunction::ThreadSpawnIndirect {
            func_ty_index: lookup(ids, s, Space::CoreType, *func_ty_index),
            table_index: lookup(ids, s, Space::CoreTable, *table_index),
        },
        CanonicalFunction::ThreadNewIndirect { func_ty_index, table_index } => CanonicalFunction::ThreadNewIndirect {
            func_ty_index: lookup(ids, s, Space::CoreType, *func_ty_index),
            table_index: lookup(ids, s, Space::CoreTable, *table_index),
        },
        CanonicalFunction::TaskReturn { result, options } => {
            let t = match result {
                Some(ComponentValType::Type(i)) => Some(ComponentValType::Type(lookup(ids, s, Space::CompType, *i))),
                Some(ComponentValType::Primitive(p)) => Some(ComponentValType::Primitive(*p)),
                None => None,
            };
            CanonicalFunction::TaskReturn { result: t, options: fix_options(options, ids, s) }
        },
        CanonicalFunction::Typed { op, ty } => CanonicalFunction::Typed { op: *op, ty: lookup(ids, s, Space::CompType, *ty) },
        CanonicalFunction::TypedWithOptions { op, ty, options } => CanonicalFunction::TypedWithOptions {
            op: *op,
            ty: lookup(ids, s, Space::CompType, *ty),
            options: fix_options(options, ids, s),
        },
        CanonicalFunction::ErrorContextNew { options } => CanonicalFunction::ErrorContextNew {
            options: fix_options(options, ids, s),
        },
        CanonicalFunction::ErrorContextDebugMessage { options } => CanonicalFunction::ErrorContextDebugMessage {
            options: fix_options(options, ids, s),
        },
        CanonicalFunction::WaitableSetWait { memory } => CanonicalFunction::WaitableSetWait {
            memory: lookup(ids, s, Space::CoreMemory, *memory),
        },
        CanonicalFunction::WaitableSetPoll { memory } => CanonicalFunction::WaitableSetPoll {
            memory: lookup(ids, s, Space::CoreMemory, *memory),
        },
        CanonicalFunction::Builtin(b) => CanonicalFunction::Builtin(*b),
    }
}

} // verus!

verus! {

/// The actual ID of index `index` of space `sp` in scope `s`, where it has
/// one that a binary can hold.
pub fn try_actual(ids: &ActualIds, s: ScopeId, sp: Space, index: u32) -> (r: Option<u32>)
    ensures
        r is Some <==> has_actual(*ids, s, sp, index),
        r matches Some(a) ==> a == actual(*ids, s, sp, index),
{
    match ids.get_scope(s) {
        None => None,
        Some(sc) => match sc.get_space(&sp) {
            None => None,
            Some(t) => match t.lookup_actual_id(index as usize) {
                Some(v) => if *v <= u32::MAX as usize {
                    Some(*v as u32)
                } else {
                    None
                },
                None => None,
            },
        },
    }
}

/// The index space of a component item kind.
pub open spec fn comp_kind_space(k: CompExternKind) -> Space {
    match k {
        CompExternKind::Func => Space::CompFunc,
        CompExternKind::Value => Space::CompVal,
        CompExternKind::Type => Space::CompType,
        CompExternKind::Instance => Space::CompInst,
        CompExternKind::Component => Space::Comp,
        CompExternKind::Module => Space::CoreModule,
    }
}

fn comp_kind_space_of(k: CompExternKind) -> (r: Space)
    ensures
        r == comp_kind_space(k),
{
    match k {
        CompExternKind::Func => Space::CompFunc,
        CompExternKind::Value => Space::CompVal,
        CompExternKind::Type => Space::CompType,
        CompExternKind::Instance => Space::CompInst,
        CompExternKind::Component => Space::Comp,
        CompExternKind::Module => Space::CoreModule,
    }
}

/// The index space of a core item kind.
pub open spec fn core_kind_space(k: CoreExternKind) -> Space {
    match k {
        CoreExternKind::Func => Space::CoreFunc,
        CoreExternKind::Table => Space::CoreTable,
        CoreExternKind::Memory => Space::CoreMemory,
        CoreExternKind::Global => Space::CoreGlobal,
        CoreExternKind::Tag => Space::CoreTag,
        CoreExternKind::FuncExact => Space::CoreFunc,
    }
}

fn core_kind_space_of(k: CoreExternKind) -> (r: Space)
    ensures
        r == core_kind_space(k),
{
    match k {
        CoreExternKind::Func => Space::CoreFunc,
        CoreExternKind::Table => Space::CoreTable,
        CoreExternKind::Memory => Space::CoreMemory,
        CoreExternKind::Global => Space::CoreGlobal,
        CoreExternKind::Tag => Space::CoreTag,
        CoreExternKind::FuncExact => Space::CoreFunc,
    }
}

/// The index space of an outer alias kind.
pub open spec fn outer_kind_space(k: OuterAliasKind) -> Space {
    match k {
        OuterAliasKind::CoreModule => Space::CoreModule,
        OuterAliasKind::CoreType => Space::CoreType,
        OuterAliasKind::Type => Space::CompType,
        OuterAliasKind::Component => Space::Comp,
    }
}

fn outer_kind_space_of(k: OuterAliasKind) -> (r: Space)
    ensures
        r == outer_kind_space(k),
{
    match k {
        OuterAliasKind::CoreModule => Space::CoreModule,
        OuterAliasKind::CoreType => Space::CoreType,
        OuterAliasKind::Type => Space::CompType,
        OuterAliasKind::Component => Space::Comp,
    }
}

/// The index space an item of a kind takes its index in, when an alias or
/// an import brings it in, is the space in which the encoder looks up the
/// indices of items of that kind. For core items it is the kind's own
/// space: functions, exact or not, share the core function space, and
/// tables, memories, globals and tags each have theirs, which no other
/// kind takes.
pub proof fn law_kind_spaces_agree(k: CoreExternKind, ck: CompExternKind, ok: OuterAliasKind)
    ensures
        k.space_of() == core_kind_space(k),
        ck.space_of() == comp_kind_space(ck),
        ok.space_of() == outer_kind_space(ok),
        k.space_of() == Space::CoreFunc <==> (k == CoreExternKind::Func || k == CoreExternKind::FuncExact),
        k.space_of() == Space::CoreTable <==> k == CoreExternKind::Table,
        k.space_of() == Space::CoreMemory <==> k == CoreExternKind::Memory,
        k.space_of() == Space::CoreGlobal <==> k == CoreExternKind::Global,
        k.space_of() == Space::CoreTag <==> k == CoreExternKind::Tag,
{
}

/// The reference an export or an instantiation argument makes, which
/// plans it after the item it names, is made in its own scope, into the
/// index space in which the encoder looks up that item's actual ID, at the
/// index the export or argument holds.
pub proof fn law_item_refs_agree_with_fixing(
    e: ComponentExport,
    ce: Export,
    a: InstantiationArg,
    ca: ComponentInstantiationArg,
)
    ensures
        e.spec_item_ref().ref_ == (IndexedRef {
            depth: Depth::at_level(0),
            space: comp_kind_space(e.kind),
            index: e.index,
        }),
        ce.spec_item_ref().ref_ == (IndexedRef {
            depth: Depth::at_level(0),
            space: core_kind_space(ce.kind),
            index: ce.index,
        }),
        a.spec_item_ref().ref_ == (IndexedRef { depth: Depth::at_level(0), space: Space::CoreInst, index: a.index }),
        ca.spec_item_ref().ref_ == (IndexedRef {
            depth: Depth::at_level(0),
            space: comp_kind_space(ca.kind),
            index: ca.index,
        }),
{
}

/// `r` is value type `v` with its type index fixed.
pub open spec fn val_fixed(v: ComponentValType, r: ComponentValType, ids: ActualIds, s: ScopeId) -> bool {
    match v {
        ComponentValType::Type(i) => has_actual(ids, s, Space::CompType, i)
            && r == ComponentValType::Type(actual(ids, s, Space::CompType, i)),
        ComponentValType::Primitive(p) => r == ComponentValType::Primitive(p),
    }
}

/// Value type `v` with its type index fixed, where it can be.
pub fn fix_val(v: &ComponentValType, ids: &ActualIds, s: ScopeId) -> (r: Option<ComponentValType>)
    ensures
        r matches Some(x) ==> val_fixed(*v, x, *ids, s),
        r is None ==> forall|x: ComponentValType| !val_fixed(*v, x, *ids, s),
{
    match v {
        ComponentValType::Type(i) => match try_actual(ids, s, Space::CompType, *i) {
            Some(a) => Some(ComponentValType::Type(a)),
            None => None,
        },
        ComponentValType::Primitive(p) => Some(ComponentValType::Primitive(*p)),
    }
}

/// `r` is type reference `t` with its index fixed.
pub open spec fn type_ref_fixed(t: ComponentTypeRef, r: ComponentTypeRef, ids: ActualIds, s: ScopeId) -> bool {
    match t {
        ComponentTypeRef::Module(i) => has_actual(ids, s, Space::CoreType, i)
            && r == ComponentTypeRef::Module(actual(ids, s, Space::CoreType, i)),
        ComponentTypeRef::Func(i) => has_actual(ids, s, Space::CompType, i)
            && r == ComponentTypeRef::Func(actual(ids, s, Space::CompType, i)),
        ComponentTypeRef::Instance(i) => has_actual(ids, s, Space::CompType, i)
            && r == ComponentTypeRef::Instance(actual(ids, s, Space::CompType, i)),
        ComponentTypeRef::Component(i) => has_actual(ids, s, Space::CompType, i)
            && r == ComponentTypeRef::Component(actual(ids, s, Space::CompType, i)),
        ComponentTypeRef::Value(v) => r matches ComponentTypeRef::Value(x) && val_fixed(v, x, ids, s),
        ComponentTypeRef::Type(TypeBounds::Eq(i)) => has_actual(ids, s, Space::CompType, i)
            && r == ComponentTypeRef::Type(TypeBounds::Eq(actual(ids, s, Space::CompType, i))),
        ComponentTypeRef::Type(TypeBounds::SubResource) => r == ComponentTypeRef::Type(TypeBounds::SubResource),
    }
}

/// Type reference `t` with its index fixed, where it can be.
pub fn fix_type_ref(t: &ComponentTypeRef, ids: &ActualIds, s: ScopeId) -> (r: Option<ComponentTypeRef>)
    ensures
        r matches Some(x) ==> type_ref_fixed(*t, x, *ids, s),
        r is None ==> forall|x: ComponentTypeRef| !type_ref_fixed(*t, x, *ids, s),
{
    match t {
        ComponentTypeRef::Module(i) => match try_actual(ids, s, Space::CoreType, *i) {
            Some(a) => Some(ComponentTypeRef::Module(a)),
            None => None,
        },
        ComponentTypeRef::Func(i) => match try_actual(ids, s, Space::CompType, *i) {
            Some(a) => Some(ComponentTypeRef::Func(a)),
            None => None,
        },
        ComponentTypeRef::Instance(i) => match try_actual(ids, s, Space::CompType, *i) {
            Some(a) => Some(ComponentTypeRef::Instance(a)),
            None => None,
        },
        ComponentTypeRef::Component(i) => match try_actual(ids, s, Space::CompType, *i) {
            Some(a) => Some(ComponentTypeRef::Component(a)),
            None => None,
        },
        ComponentTypeRef::Value(v) => match fix_val(v, ids, s) {
            Some(x) => Some(ComponentTypeRef::Value(x)),
            None => None,
        },
        ComponentTypeRef::Type(TypeBounds::Eq(i)) => match try_actual(ids, s, Space::CompType, *i) {
            Some(a) => Some(ComponentTypeRef::Type(TypeBounds::Eq(a))),
            None => None,
        },
        ComponentTypeRef::Type(TypeBounds::SubResource) => Some(ComponentTypeRef::Type(TypeBounds::SubResource)),
    }
}

/// `r` is import `i` with its type reference fixed; the name is kept.
pub open spec fn import_fixed(i: ComponentImport, r: ComponentImport, ids: ActualIds, s: ScopeId) -> bool {
    r.name@ == i.name@ && type_ref_fixed(i.ty, r.ty, ids, s)
}

/// Import `i` with its type reference fixed, where it can be.
pub fn fix_import(i: &ComponentImport, ids: &ActualIds, s: ScopeId) -> (r: Option<ComponentImport>)
    ensures
        r matches Some(x) ==> import_fixed(*i, x, *ids, s),
        r is None ==> forall|x: ComponentImport| !import_fixed(*i, x, *ids, s),
{
    match fix_type_ref(&i.ty, ids, s) {
        Some(t) => Some(ComponentImport { name: i.name.clone(), ty: t }),
        None => None,
    }
}

/// `r` is export `e` with its item index, and its type reference if it has
/// one, fixed; the name and kind are kept.
pub open spec fn export_fixed(e: ComponentExport, r: ComponentExport, ids: ActualIds, s: ScopeId) -> bool {
    &&& r.name@ == e.name@
    &&& r.kind == e.kind
    &&& has_actual(ids, s, comp_kind_space(e.kind), e.index)
    &&& r.index == actual(ids, s, comp_kind_space(e.kind), e.index)
    &&& match e.ty {
        Some(t) => r.ty matches Some(x) && type_ref_fixed(t, x, ids, s),
        None => r.ty is None,
    }
}

/// Export `e` with its indices fixed, where they can be.
pub fn fix_export(e: &ComponentExport, ids: &ActualIds, s: ScopeId) -> (r: Option<ComponentExport>)
    ensures
        r matches Some(x) ==> export_fixed(*e, x, *ids, s),
        r is None ==> forall|x: ComponentExport| !export_fixed(*e, x, *ids, s),
{
    let sp = comp_kind_space_of(e.kind);
    let index = match try_actual(ids, s, sp, e.index) {
        Some(a) => a,
        None => {
            return None;
        },
    };
    let ty = match &e.ty {
        Some(t) => match fix_type_ref(t, ids, s) {
            Some(x) => Some(x),
            None => {
                return None;
            },
        },
        None => None,
    };
    Some(ComponentExport { name: e.name.clone(), kind: e.kind, index, ty })
}

/// The actual IDs and identity of the scopes a node sees, innermost last.
pub open spec fn scope_at<'a>(stack: Seq<(&'a ActualIds, ScopeId)>, count: int) -> (ActualIds, ScopeId) {
    let e = stack[stack.len() - 1 - count];
    (*e.0, e.1)
}

/// `r` is alias `a`, seen from the innermost scope of `stack`, with its
/// index fixed: an instance index in that scope, an outer index in the
/// scope `count` levels out.
pub open spec fn alias_fixed<'a>(a: ComponentAlias, r: ComponentAlias, stack: Seq<(&'a ActualIds, ScopeId)>) -> bool {
    stack.len() > 0 && {
        let (ids, s) = scope_at(stack, 0);
        match a {
            ComponentAlias::InstanceExport { kind, instance_index, name } => has_actual(ids, s, Space::CompInst, instance_index)
                && (r matches ComponentAlias::InstanceExport { kind: k, instance_index: x, name: n } && k == kind
                && x == actual(ids, s, Space::CompInst, instance_index) && n@ == name@),
            ComponentAlias::CoreInstanceExport { kind, instance_index, name } => has_actual(ids, s, Space::CoreInst, instance_index)
                && (r matches ComponentAlias::CoreInstanceExport { kind: k, instance_index: x, name: n } && k == kind
                && x == actual(ids, s, Space::CoreInst, instance_index) && n@ == name@),
            ComponentAlias::Outer { kind, count, index } => count < stack.len() && {
                let (o, os) = scope_at(stack, count as int);
                has_actual(o, os, outer_kind_space(kind), index) && r == ComponentAlias::Outer {
                    kind,
                    count,
                    index: actual(o, os, outer_kind_space(kind), index),
                }
            },
        }
    }
}

/// Alias `a` with its index fixed, where it can be.
pub fn fix_alias<'a>(a: &ComponentAlias, stack: &Vec<(&'a ActualIds, ScopeId)>) -> (r: Option<ComponentAlias>)
    ensures
        r matches Some(x) ==> alias_fixed(*a, x, stack@),
        r is None ==> forall|x: ComponentAlias| !alias_fixed(*a, x, stack@),
{
    let n = stack.len();
    if n == 0 {
        return None;
    }
    let (ids, s) = stack[n - 1];
    match a {
        ComponentAlias::InstanceExport { kind, instance_index, name } => match try_actual(ids, s, Space::CompInst, *instance_index) {
            Some(x) => Some(ComponentAlias::InstanceExport { kind: *kind, instance_index: x, name: name.clone() }),
            None => None,
        },
        ComponentAlias::CoreInstanceExport { kind, instance_index, name } => match try_actual(ids, s, Space::CoreInst, *instance_index) {
            Some(x) => Some(ComponentAlias::CoreInstanceExport { kind: *kind, instance_index: x, name: name.clone() }),
            None => None,
        },
        ComponentAlias::Outer { kind, count, index } => {
            if *count as usize >= n {
                return None;
            }
            let (o, os) = stack[n - 1 - *count as usize];
            match try_actual(o, os, outer_kind_space_of(*kind), *index) {
                Some(x) => Some(ComponentAlias::Outer { kind: *kind, count: *count, index: x }),
                None => None,
            }
        },
    }
}

} // verus!

verus! {

/// `r` is argument `a` with its index fixed.
pub open spec fn comp_arg_fixed(a: ComponentInstantiationArg, r: ComponentInstantiationArg, ids: ActualIds, s: ScopeId) -> bool {
    &&& r.name@ == a.name@
    &&& r.kind == a.kind
    &&& has_actual(ids, s, comp_kind_space(a.kind), a.index)
    &&& r.index == actual(ids, s, comp_kind_space(a.kind), a.index)
}


/// `r` is component instance `i` with its indices fixed.
pub open spec fn comp_instance_fixed(i: ComponentInstance, r: ComponentInstance, ids: ActualIds, s: ScopeId) -> bool {
    match i {
        ComponentInstance::Instantiate { component_index, args } => has_actual(ids, s, Space::Comp, component_index)
            && (r matches ComponentInstance::Instantiate { component_index: c, args: ra }
            && c == actual(ids, s, Space::Comp, component_index)
            && comp_args_fixed(args@, ra@, ids, s)),
        ComponentInstance::FromExports(es) => r matches ComponentInstance::FromExports(rs)
            && exports_fixed(es@, rs@, ids, s),
    }
}

fn fix_comp_args(args: &Vec<ComponentInstantiationArg>, ids: &ActualIds, s: ScopeId) -> (r: Option<Vec<ComponentInstantiationArg>>)
    ensures
        r matches Some(v) ==> comp_args_fixed(args@, v@, *ids, s),
        r is None ==> forall|v: Seq<ComponentInstantiationArg>| !comp_args_fixed(args@, v, *ids, s),
{
    let mut out: Vec<ComponentInstantiationArg> = Vec::new();
    for k in 0..args.len()
        invariant
            out@.len() == k,
            forall|j: int| 0 <= j < k ==> comp_arg_fixed(#[trigger] args@[j], out@[j], *ids, s),
    {
        let a = &args[k];
        match try_actual(ids, s, comp_kind_space_of(a.kind), a.index) {
            Some(x) => out.push(ComponentInstantiationArg { name: a.name.clone(), kind: a.kind, index: x }),
            None => {
                assert forall|v: Seq<ComponentInstantiationArg>| !comp_args_fixed(args@, v, *ids, s) by {
                    if v.len() == args@.len() {
                        assert(!comp_arg_fixed(args@[k as int], v[k as int], *ids, s));
                    }
                }
                return None;
            },
        }
    }
    Some(out)
}

fn fix_exports(es: &Vec<ComponentExport>, ids: &ActualIds, s: ScopeId) -> (r: Option<Vec<ComponentExport>>)
    ensures
        r matches Some(v) ==> exports_fixed(es@, v@, *ids, s),
        r is None ==> forall|v: Seq<ComponentExport>| !exports_fixed(es@, v, *ids, s),
{
    let mut out: Vec<ComponentExport> = Vec::new();
    for k in 0..es.len()
        invariant
            out@.len() == k,
            forall|j: int| 0 <= j < k ==> export_fixed(#[trigger] es@[j], out@[j], *ids, s),
    {
        match fix_export(&es[k], ids, s) {
            Some(x) => out.push(x),
            None => {
                assert forall|v: Seq<ComponentExport>| !exports_fixed(es@, v, *ids, s) by {
                    if v.len() == es@.len() {
                        assert(!export_fixed(es@[k as int], v[k as int], *ids, s));
                    }
                }
                return None;
            },
        }
    }
    Some(out)
}

/// Component instance `i` with its indices fixed, where they can be.
pub fn fix_comp_instance(i: &ComponentInstance, ids: &ActualIds, s: ScopeId) -> (r: Option<ComponentInstance>)
    ensures
        r matches Some(x) ==> comp_instance_fixed(*i, x, *ids, s),
        r is None ==> forall|x: ComponentInstance| !comp_instance_fixed(*i, x, *ids, s),
{
    match i {
        ComponentInstance::Instantiate { component_index, args } => {
            let c = match try_actual(ids, s, Space::Comp, *component_index) {
                Some(c) => c,
                None => {
                    return None;
                },
            };
            match fix_comp_args(args, ids, s) {
                Some(v) => Some(ComponentInstance::Instantiate { component_index: c, args: v }),
                None => {
                    assert forall|x: ComponentInstance| !comp_instance_fixed(*i, x, *ids, s) by {
                        if x is Instantiate {
                            assert(!comp_args_fixed(args@, x->args@, *ids, s));
                        }
                    }
                    None
                },
            }
        },
        ComponentInstance::FromExports(es) => match fix_exports(es, ids, s) {
            Some(v) => Some(ComponentInstance::FromExports(v)),
            None => {
                assert forall|x: ComponentInstance| !comp_instance_fixed(*i, x, *ids, s) by {
                    if x is FromExports {
                        assert(!exports_fixed(es@, x->FromExports_0@, *ids, s));
                    }
                }
                None
            },
        },
    }
}

/// `r` is core instantiation argument `a` with its instance index fixed.
pub open spec fn core_arg_fixed(a: InstantiationArg, r: InstantiationArg, ids: ActualIds, s: ScopeId) -> bool {
    &&& r.name@ == a.name@
    &&& r.kind == a.kind
    &&& has_actual(ids, s, Space::CoreInst, a.index)
    &&& r.index == actual(ids, s, Space::CoreInst, a.index)
}

/// `r` is core export `e` with its index fixed.
pub open spec fn core_export_fixed(e: Export, r: Export, ids: ActualIds, s: ScopeId) -> bool {
    &&& r.name@ == e.name@
    &&& r.kind == e.kind
    &&& has_actual(ids, s, core_kind_space(e.kind), e.index)
    &&& r.index == actual(ids, s, core_kind_space(e.kind), e.index)
}

/// `rs` is `xs` with each argument fixed.
pub open spec fn comp_args_fixed(xs: Seq<ComponentInstantiationArg>, rs: Seq<ComponentInstantiationArg>, ids: ActualIds, s: ScopeId) -> bool {
    &&& rs.len() == xs.len()
    &&& forall|k: int| 0 <= k < xs.len() ==> comp_arg_fixed(#[trigger] xs[k], rs[k], ids, s)
}

/// `rs` is `xs` with each export fixed.
pub open spec fn exports_fixed(xs: Seq<ComponentExport>, rs: Seq<ComponentExport>, ids: ActualIds, s: ScopeId) -> bool {
    &&& rs.len() == xs.len()
    &&& forall|k: int| 0 <= k < xs.len() ==> export_fixed(#[trigger] xs[k], rs[k], ids, s)
}

/// `rs` is `xs` with each argument fixed.
pub open spec fn core_args_fixed(xs: Seq<InstantiationArg>, rs: Seq<InstantiationArg>, ids: ActualIds, s: ScopeId) -> bool {
    &&& rs.len() == xs.len()
    &&& forall|k: int| 0 <= k < xs.len() ==> core_arg_fixed(#[trigger] xs[k], rs[k], ids, s)
}

/// `rs` is `xs` with each export fixed.
pub open spec fn core_exports_fixed(xs: Seq<Export>, rs: Seq<Export>, ids: ActualIds, s: ScopeId) -> bool {
    &&& rs.len() == xs.len()
    &&& forall|k: int| 0 <= k < xs.len() ==> core_export_fixed(#[trigger] xs[k], rs[k], ids, s)
}

/// `r` is core instance `i` with its indices fixed.
pub open spec fn core_instance_fixed(i: Instance, r: Instance, ids: ActualIds, s: ScopeId) -> bool {
    match i {
        Instance::Instantiate { module_index, args } => has_actual(ids, s, Space::CoreModule, module_index)
            && (r matches Instance::Instantiate { module_index: m, args: ra }
            && m == actual(ids, s, Space::CoreModule, module_index)
            && core_args_fixed(args@, ra@, ids, s)),
        Instance::FromExports(es) => r matches Instance::FromExports(rs)
            && core_exports_fixed(es@, rs@, ids, s),
    }
}

/// Core instance `i` with its indices fixed, where they can be.
pub fn fix_core_instance(i: &Instance, ids: &ActualIds, s: ScopeId) -> (r: Option<Instance>)
    ensures
        r matches Some(x) ==> core_instance_fixed(*i, x, *ids, s),
        r is None ==> forall|x: Instance| !core_instance_fixed(*i, x, *ids, s),
{
    match i {
        Instance::Instantiate { module_index, args } => {
            let m = match try_actual(ids, s, Space::CoreModule, *module_index) {
                Some(m) => m,
                None => {
                    return None;
                },
            };
            let mut out: Vec<InstantiationArg> = Vec::new();
            for k in 0..args.len()
                invariant
                    *i is Instantiate,
                    i->args == *args,
                    out@.len() == k,
                    forall|j: int| 0 <= j < k ==> core_arg_fixed(#[trigger] args@[j], out@[j], *ids, s),
            {
                let a = &args[k];
                match try_actual(ids, s, Space::CoreInst, a.index) {
                    Some(x) => out.push(InstantiationArg { name: a.name.clone(), kind: a.kind, index: x }),
                    None => {
                        assert forall|x: Instance| !core_instance_fixed(*i, x, *ids, s) by {
                            if x is Instantiate && x->args@.len() == args@.len() {
                                assert(!core_arg_fixed(args@[k as int], x->args@[k as int], *ids, s));
                            }
                        }
                        return None;
                    },
                }
            }
            Some(Instance::Instantiate { module_index: m, args: out })
        },
        Instance::FromExports(es) => {
            let mut out: Vec<Export> = Vec::new();
            for k in 0..es.len()
                invariant
                    *i is FromExports,
                    i->FromExports_0 == *es,
                    out@.len() == k,
                    forall|j: int| 0 <= j < k ==> core_export_fixed(#[trigger] es@[j], out@[j], *ids, s),
            {
                let e = &es[k];
                match try_actual(ids, s, core_kind_space_of(e.kind), e.index) {
                    Some(x) => out.push(Export { name: e.name.clone(), kind: e.kind, index: x }),
                    None => {
                        assert forall|x: Instance| !core_instance_fixed(*i, x, *ids, s) by {
                            if x is FromExports && x->FromExports_0@.len() == es@.len() {
                                assert(!core_export_fixed(es@[k as int], x->FromExports_0@[k as int], *ids, s));
                            }
                        }
                        return None;
                    },
                }
            }
            Some(Instance::FromExports(out))
        },
    }
}

/// `r` is start function `f` with its function and argument indices fixed.
pub open spec fn start_fixed(f: ComponentStartFunction, r: ComponentStartFunction, ids: ActualIds, s: ScopeId) -> bool {
    &&& has_actual(ids, s, Space::CompFunc, f.func_index)
    &&& r.func_index == actual(ids, s, Space::CompFunc, f.func_index)
    &&& r.results == f.results
    &&& r.arguments@.len() == f.arguments@.len()
    &&& forall|k: int| 0 <= k < f.arguments@.len() ==> has_actual(ids, s, Space::CompVal, #[trigger] f.arguments@[k])
        && r.arguments@[k] == actual(ids, s, Space::CompVal, f.arguments@[k])
}

/// Start function `f` with its indices fixed, where they can be.
pub fn fix_start(f: &ComponentStartFunction, ids: &ActualIds, s: ScopeId) -> (r: Option<ComponentStartFunction>)
    ensures
        r matches Some(x) ==> start_fixed(*f, x, *ids, s),
        r is None ==> forall|x: ComponentStartFunction| !start_fixed(*f, x, *ids, s),
{
    let func_index = match try_actual(ids, s, Space::CompFunc, f.func_index) {
        Some(x) => x,
        None => {
            return None;
        },
    };
    let mut args: Vec<u32> = Vec::new();
    for k in 0..f.arguments.len()
        invariant
            args@.len() == k,
            forall|j: int| 0 <= j < k ==> has_actual(*ids, s, Space::CompVal, #[trigger] f.arguments@[j])
                && args@[j] == actual(*ids, s, Space::CompVal, f.arguments@[j]),
    {
        match try_actual(ids, s, Space::CompVal, f.arguments[k]) {
            Some(x) => args.push(x),
            None => {
                assert(!has_actual(*ids, s, Space::CompVal, f.arguments@[k as int]));
                return None;
            },
        }
    }
    Some(ComponentStartFunction { func_index, arguments: args, results: f.results })
}

fn options_fixable_exec(os: &Vec<CanonicalOption>, ids: &ActualIds, s: ScopeId) -> (r: bool)
    ensures
        r == options_fixable(os@, *ids, s),
{
    for k in 0..os.len()
        invariant
            forall|j: int| 0 <= j < k ==> option_fixable(#[trigger] os@[j], *ids, s),
    {
        let ok = match os[k] {
            CanonicalOption::Memory(i) => try_actual(ids, s, Space::CoreMemory, i).is_some(),
            CanonicalOption::Realloc(i) => try_actual(ids, s, Space::CoreFunc, i).is_some(),
            CanonicalOption::PostReturn(i) => try_actual(ids, s, Space::CoreFunc, i).is_some(),
            CanonicalOption::Callback(i) => try_actual(ids, s, Space::CoreFunc, i).is_some(),
            CanonicalOption::CoreType(i) => try_actual(ids, s, Space::CoreType, i).is_some(),
            _ => true,
        };
        if !ok {
            return false;
        }
    }
    true
}

fn has_actual_exec(ids: &ActualIds, s: ScopeId, sp: Space, index: u32) -> (r: bool)
    ensures
        r == has_actual(*ids, s, sp, index),
{
    try_actual(ids, s, sp, index).is_some()
}

/// Canonical function `c` with its indices fixed, where they can be.
pub fn try_fix_canon(c: &CanonicalFunction, ids: &ActualIds, s: ScopeId) -> (r: Option<CanonicalFunction>)
    requires
        ids.scope_map().contains_key(s),
    ensures
        r is Some <==> canon_fixable(*c, *ids, s),
        r matches Some(x) ==> canon_fixed(*c, x, *ids, s),
{
    let ok = match c {
        CanonicalFunction::Lift { core_func_index, type_index, options } => has_actual_exec(ids, s, Space::CoreFunc, *core_func_index)
            && has_actual_exec(ids, s, Space::CompType, *type_index) && options_fixable_exec(options, ids, s),
        CanonicalFunction::Lower { func_index, options } => has_actual_exec(ids, s, Space::CompFunc, *func_index)
            && options_fixable_exec(options, ids, s),
        CanonicalFunction::Resource { resource, .. } => has_actual_exec(ids, s, Space::CompType, *resource),
        CanonicalFunction::ThreadSpawnRef { func_ty_index } => has_actual_exec(ids, s, Space::CompFunc, *func_ty_index),
        CanonicalFunction::ThreadSpawnIndirect { func_ty_index, table_index } => has_actual_exec(ids, s, Space::CoreType, *func_ty_index)
            && has_actual_exec(ids, s, Space::CoreTable, *table_index),
        CanonicalFunction::ThreadNewIndirect { func_ty_index, table_index } => has_actual_exec(ids, s, Space::CoreType, *func_ty_index)
            && has_actual_exec(ids, s, Space::CoreTable, *table_index),
        CanonicalFunction::TaskReturn { result, options } => {
            let r_ok = match result {
                Some(ComponentValType::Type(i)) => has_actual_exec(ids, s, Space::CompType, *i),
                _ => true,
            };
            r_ok && options_fixable_exec(options, ids, s)
        },
        CanonicalFunction::Typed { ty, .. } => has_actual_exec(ids, s, Space::CompType, *ty),
        CanonicalFunction::TypedWithOptions { ty, options, .. } => has_actual_exec(ids, s, Space::CompType, *ty)
            && options_fixable_exec(options, ids, s),
        CanonicalFunction::ErrorContextNew { options } => options_fixable_exec(options, ids, s),
        CanonicalFunction::ErrorContextDebugMessage { options } => options_fixable_exec(options, ids, s),
        CanonicalFunction::WaitableSetWait { memory } => has_actual_exec(ids, s, Space::CoreMemory, *memory),
        CanonicalFunction::WaitableSetPoll { memory } => has_actual_exec(ids, s, Space::CoreMemory, *memory),
        CanonicalFunction::Builtin(_) => true,
    };
    if ok {
        Some(fix_canon(c, ids, s))
    } else {
        None
    }
}

} // verus!

verus! {

/// `r` is optional value type `v` with its type index fixed.
pub open spec fn opt_val_fixed(v: Option<ComponentValType>, r: Option<ComponentValType>, ids: ActualIds, s: ScopeId) -> bool {
    match v {
        Some(t) => r matches Some(x) && val_fixed(t, x, ids, s),
        None => r is None,
    }
}

fn fix_opt_val(v: &Option<ComponentValType>, ids: &ActualIds, s: ScopeId) -> (r: Option<Option<ComponentValType>>)
    ensures
        r matches Some(x) ==> opt_val_fixed(*v, x, *ids, s),
        r is None ==> forall|x: Option<ComponentValType>| !opt_val_fixed(*v, x, *ids, s),
{
    match v {
        Some(t) => match fix_val(t, ids, s) {
            Some(x) => Some(Some(x)),
            None => None,
        },
        None => Some(None),
    }
}

/// `rs` is `ns` with the same texts.
pub open spec fn names_kept(ns: Seq<String>, rs: Seq<String>) -> bool {
    &&& rs.len() == ns.len()
    &&& forall|k: int| 0 <= k < ns.len() ==> #[trigger] rs[k]@ == ns[k]@
}

fn copy_names(ns: &Vec<String>) -> (r: Vec<String>)
    ensures
        names_kept(ns@, r@),
{
    let mut out: Vec<String> = Vec::new();
    for k in 0..ns.len()
        invariant
            out@.len() == k,
            forall|j: int| 0 <= j < k ==> #[trigger] out@[j]@ == ns@[j]@,
    {
        out.push(ns[k].clone());
    }
    out
}

/// `rs` is the named value types `fs` with their type indices fixed.
pub open spec fn named_vals_fixed(fs: Seq<(String, ComponentValType)>, rs: Seq<(String, ComponentValType)>, ids: ActualIds, s: ScopeId) -> bool {
    &&& rs.len() == fs.len()
    &&& forall|k: int| #![trigger rs[k]] 0 <= k < fs.len() ==> rs[k].0@ == fs[k].0@ && val_fixed(fs[k].1, rs[k].1, ids, s)
}

fn fix_named_vals(fs: &Vec<(String, ComponentValType)>, ids: &ActualIds, s: ScopeId) -> (r: Option<Vec<(String, ComponentValType)>>)
    ensures
        r matches Some(v) ==> named_vals_fixed(fs@, v@, *ids, s),
        r is None ==> forall|v: Seq<(String, ComponentValType)>| !named_vals_fixed(fs@, v, *ids, s),
{
    let mut out: Vec<(String, ComponentValType)> = Vec::new();
    for k in 0..fs.len()
        invariant
            out@.len() == k,
            forall|j: int| #![trigger out@[j]] 0 <= j < k ==> out@[j].0@ == fs@[j].0@ && val_fixed(fs@[j].1, out@[j].1, *ids, s),
    {
        match fix_val(&fs[k].1, ids, s) {
            Some(x) => out.push((fs[k].0.clone(), x)),
            None => {
                assert forall|v: Seq<(String, ComponentValType)>| !named_vals_fixed(fs@, v, *ids, s) by {
                    if v.len() == fs@.len() {
                        assert(!val_fixed(fs@[k as int].1, v[k as int].1, *ids, s));
                    }
                }
                return None;
            },
        }
    }
    Some(out)
}

/// `rs` is the value types `ts` with their type indices fixed.
pub open spec fn vals_fixed(ts: Seq<ComponentValType>, rs: Seq<ComponentValType>, ids: ActualIds, s: ScopeId) -> bool {
    &&& rs.len() == ts.len()
    &&& forall|k: int| 0 <= k < ts.len() ==> val_fixed(#[trigger] ts[k], rs[k], ids, s)
}

fn fix_vals(ts: &Vec<ComponentValType>, ids: &ActualIds, s: ScopeId) -> (r: Option<Vec<ComponentValType>>)
    ensures
        r matches Some(v) ==> vals_fixed(ts@, v@, *ids, s),
        r is None ==> forall|v: Seq<ComponentValType>| !vals_fixed(ts@, v, *ids, s),
{
    let mut out: Vec<ComponentValType> = Vec::new();
    for k in 0..ts.len()
        invariant
            out@.len() == k,
            forall|j: int| 0 <= j < k ==> val_fixed(#[trigger] ts@[j], out@[j], *ids, s),
    {
        match fix_val(&ts[k], ids, s) {
            Some(x) => out.push(x),
            None => {
                assert forall|v: Seq<ComponentValType>| !vals_fixed(ts@, v, *ids, s) by {
                    if v.len() == ts@.len() {
                        assert(!val_fixed(ts@[k as int], v[k as int], *ids, s));
                    }
                }
                return None;
            },
        }
    }
    Some(out)
}

/// `rs` is the cases `cs` with their type indices fixed.
pub open spec fn cases_fixed(cs: Seq<VariantCase>, rs: Seq<VariantCase>, ids: ActualIds, s: ScopeId) -> bool {
    &&& rs.len() == cs.len()
    &&& forall|k: int| #![trigger rs[k]] 0 <= k < cs.len() ==> rs[k].name@ == cs[k].name@ && opt_val_fixed(cs[k].ty, rs[k].ty, ids, s)
}

fn fix_cases(cs: &Vec<VariantCase>, ids: &ActualIds, s: ScopeId) -> (r: Option<Vec<VariantCase>>)
    ensures
        r matches Some(v) ==> cases_fixed(cs@, v@, *ids, s),
        r is None ==> forall|v: Seq<VariantCase>| !cases_fixed(cs@, v, *ids, s),
{
    let mut out: Vec<VariantCase> = Vec::new();
    for k in 0..cs.len()
        invariant
            out@.len() == k,
            forall|j: int| #![trigger out@[j]] 0 <= j < k ==> out@[j].name@ == cs@[j].name@ && opt_val_fixed(cs@[j].ty, out@[j].ty, *ids, s),
    {
        match fix_opt_val(&cs[k].ty, ids, s) {
            Some(x) => out.push(VariantCase { name: cs[k].name.clone(), ty: x }),
            None => {
                assert forall|v: Seq<VariantCase>| !cases_fixed(cs@, v, *ids, s) by {
                    if v.len() == cs@.len() {
                        assert(!opt_val_fixed(cs@[k as int].ty, v[k as int].ty, *ids, s));
                    }
                }
                return None;
            },
        }
    }
    Some(out)
}

/// `r` is defined type `d` with the type indices it holds fixed.
pub open spec fn defined_fixed(d: ComponentDefinedType, r: ComponentDefinedType, ids: ActualIds, s: ScopeId) -> bool {
    match d {
        ComponentDefinedType::Primitive(p) => r == ComponentDefinedType::Primitive(p),
        ComponentDefinedType::Record(fs) => r matches ComponentDefinedType::Record(x) && named_vals_fixed(fs@, x@, ids, s),
        ComponentDefinedType::Variant(cs) => r matches ComponentDefinedType::Variant(x) && cases_fixed(cs@, x@, ids, s),
        ComponentDefinedType::List(v) => r matches ComponentDefinedType::List(x) && val_fixed(v, x, ids, s),
        ComponentDefinedType::MapOf(k, v) => r matches ComponentDefinedType::MapOf(x, y) && val_fixed(k, x, ids, s)
            && val_fixed(v, y, ids, s),
        ComponentDefinedType::FixedLengthList(v, n) => r matches ComponentDefinedType::FixedLengthList(x, m) && m == n
            && val_fixed(v, x, ids, s),
        ComponentDefinedType::Tuple(ts) => r matches ComponentDefinedType::Tuple(x) && vals_fixed(ts@, x@, ids, s),
        ComponentDefinedType::Flags(ns) => r matches ComponentDefinedType::Flags(x) && names_kept(ns@, x@),
        ComponentDefinedType::Enum(ns) => r matches ComponentDefinedType::Enum(x) && names_kept(ns@, x@),
        ComponentDefinedType::Option(v) => r matches ComponentDefinedType::Option(x) && val_fixed(v, x, ids, s),
        ComponentDefinedType::Result { ok, err } => r matches ComponentDefinedType::Result { ok: x, err: y }
            && opt_val_fixed(ok, x, ids, s) && opt_val_fixed(err, y, ids, s),
        ComponentDefinedType::Own(i) => has_actual(ids, s, Space::CompType, i)
            && r == ComponentDefinedType::Own(actual(ids, s, Space::CompType, i)),
        ComponentDefinedType::Borrow(i) => has_actual(ids, s, Space::CompType, i)
            && r == ComponentDefinedType::Borrow(actual(ids, s, Space::CompType, i)),
        ComponentDefinedType::Future(v) => r matches ComponentDefinedType::Future(x) && opt_val_fixed(v, x, ids, s),
        ComponentDefinedType::Stream(v) => r matches ComponentDefinedType::Stream(x) && opt_val_fixed(v, x, ids, s),
    }
}

/// Defined type `d` with its type indices fixed, where they can be.
pub fn fix_defined(d: &ComponentDefinedType, ids: &ActualIds, s: ScopeId) -> (r: Option<ComponentDefinedType>)
    ensures
        r matches Some(x) ==> defined_fixed(*d, x, *ids, s),
        r is None ==> forall|x: ComponentDefinedType| !defined_fixed(*d, x, *ids, s),
{
    match d {
        ComponentDefinedType::Primitive(p) => Some(ComponentDefinedType::Primitive(*p)),
        ComponentDefinedType::Record(fs) => match fix_named_vals(fs, ids, s) {
            Some(x) => Some(ComponentDefinedType::Record(x)),
            None => None,
        },
        ComponentDefinedType::Variant(cs) => match fix_cases(cs, ids, s) {
            Some(x) => Some(ComponentDefinedType::Variant(x)),
            None => None,
        },
        ComponentDefinedType::List(v) => match fix_val(v, ids, s) {
            Some(x) => Some(ComponentDefinedType::List(x)),
            None => None,
        },
        ComponentDefinedType::MapOf(k, v) => match (fix_val(k, ids, s), fix_val(v, ids, s)) {
            (Some(x), Some(y)) => Some(ComponentDefinedType::MapOf(x, y)),
            _ => None,
        },
        ComponentDefinedType::FixedLengthList(v, n) => match fix_val(v, ids, s) {
            Some(x) => Some(ComponentDefinedType::FixedLengthList(x, *n)),
            None => None,
        },
        ComponentDefinedType::Tuple(ts) => match fix_vals(ts, ids, s) {
            Some(x) => Some(ComponentDefinedType::Tuple(x)),
            None => None,
        },
        ComponentDefinedType::Flags(ns) => Some(ComponentDefinedType::Flags(copy_names(ns))),
        ComponentDefinedType::Enum(ns) => Some(ComponentDefinedType::Enum(copy_names(ns))),
        ComponentDefinedType::Option(v) => match fix_val(v, ids, s) {
            Some(x) => Some(ComponentDefinedType::Option(x)),
            None => None,
        },
        ComponentDefinedType::Result { ok, err } => match (fix_opt_val(ok, ids, s), fix_opt_val(err, ids, s)) {
            (Some(x), Some(y)) => Some(ComponentDefinedType::Result { ok: x, err: y }),
            _ => None,
        },
        ComponentDefinedType::Own(i) => match try_actual(ids, s, Space::CompType, *i) {
            Some(a) => Some(ComponentDefinedType::Own(a)),
            None => None,
        },
        ComponentDefinedType::Borrow(i) => match try_actual(ids, s, Space::CompType, *i) {
            Some(a) => Some(ComponentDefinedType::Borrow(a)),
            None => None,
        },
        ComponentDefinedType::Future(v) => match fix_opt_val(v, ids, s) {
            Some(x) => Some(ComponentDefinedType::Future(x)),
            None => None,
        },
        ComponentDefinedType::Stream(v) => match fix_opt_val(v, ids, s) {
            Some(x) => Some(ComponentDefinedType::Stream(x)),
            None => None,
        },
    }
}

/// `r` is component type `t` with the indices it holds fixed: those of a
/// defined type, of a function type's parameters and result, and of a
/// resource's destructor. A component or instance type, whose body has a
/// scope of its own, is kept as it is.
pub open spec fn comp_type_fixed(t: ComponentType, r: ComponentType, ids: ActualIds, s: ScopeId) -> bool {
    match t {
        ComponentType::Defined(d) => r matches ComponentType::Defined(x) && defined_fixed(d, x, ids, s),
        ComponentType::Func(f) => r matches ComponentType::Func(g) && g.async_ == f.async_
            && named_vals_fixed(f.params@, g.params@, ids, s) && opt_val_fixed(f.result, g.result, ids, s),
        ComponentType::Resource { rep, dtor } => r matches ComponentType::Resource { rep: x, dtor: y } && x == rep
            && match dtor {
                Some(i) => has_actual(ids, s, Space::CoreFunc, i) && y == Some(actual(ids, s, Space::CoreFunc, i)),
                None => y is None,
            },
        _ => false,
    }
}

/// Whether component type `t` has a scope of its own (a component or an
/// instance type).
pub open spec fn has_body(t: ComponentType) -> bool {
    t is Component || t is Instance
}

/// Component type `t`, which has no body, with its indices fixed, where
/// they can be.
pub fn fix_comp_type(t: &ComponentType, ids: &ActualIds, s: ScopeId) -> (r: Option<ComponentType>)
    requires
        !has_body(*t),
    ensures
        r matches Some(x) ==> comp_type_fixed(*t, x, *ids, s),
        r is None ==> forall|x: ComponentType| !comp_type_fixed(*t, x, *ids, s),
{
    match t {
        ComponentType::Defined(d) => match fix_defined(d, ids, s) {
            Some(x) => Some(ComponentType::Defined(x)),
            None => None,
        },
        ComponentType::Func(f) => match (fix_named_vals(&f.params, ids, s), fix_opt_val(&f.result, ids, s)) {
            (Some(p), Some(q)) => Some(ComponentType::Func(ComponentFuncType { async_: f.async_, params: p, result: q })),
            _ => None,
        },
        ComponentType::Resource { rep, dtor } => match dtor {
            Some(i) => match try_actual(ids, s, Space::CoreFunc, *i) {
                Some(a) => Some(ComponentType::Resource { rep: *rep, dtor: Some(a) }),
                None => None,
            },
            None => Some(ComponentType::Resource { rep: *rep, dtor: None }),
        },
        _ => None,
    }
}

/// Whether component type `t` has a scope of its own.
pub fn has_body_exec(t: &ComponentType) -> (r: bool)
    ensures
        r == has_body(*t),
{
    match t {
        ComponentType::Component(_) | ComponentType::Instance(_) => true,
        _ => false,
    }
}

} // verus!
