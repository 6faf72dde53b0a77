//! What a binary can hold: a core type index written as an index into the
//! module's (or component's) core type space, and no built-in the encoder
//! does not know. Indices relative to a recursion group or canonicalized
//! type identities, which only a validator makes, have no binary form.

use vstd::prelude::*;
use crate::items::{
    CoreTypeIndex, CoreHeapType, CoreValType, CoreStorageType, CompositeInner, CoreSubType, CoreRecGroup, CoreType,
    ModuleTypeDeclaration, ComponentType, ComponentTypeDeclaration, InstanceTypeDeclaration, CanonicalFunction,
    BuiltinOp,
};
use crate::encode::EncodedItem;

verus! {

/// A core type index with a binary form.
pub open spec fn idx_plain(i: CoreTypeIndex) -> bool {
    i is Module
}

/// A heap type with a binary form.
pub open spec fn heap_plain(h: CoreHeapType) -> bool {
    match h {
        CoreHeapType::Concrete(i) => idx_plain(i),
        CoreHeapType::Exact(i) => idx_plain(i),
        CoreHeapType::Abstract { .. } => true,
    }
}

/// A core value type with a binary form.
pub open spec fn val_plain(v: CoreValType) -> bool {
    match v {
        CoreValType::Ref { heap, .. } => heap_plain(heap),
        _ => true,
    }
}

/// A storage type with a binary form.
pub open spec fn storage_plain(s: CoreStorageType) -> bool {
    match s {
        CoreStorageType::Val(v) => val_plain(v),
        _ => true,
    }
}

/// An optional index with a binary form.
pub open spec fn opt_idx_plain(o: Option<CoreTypeIndex>) -> bool {
    match o {
        Some(i) => idx_plain(i),
        None => true,
    }
}

/// A subtype with a binary form.
pub open spec fn sub_plain(t: CoreSubType) -> bool {
    &&& forall|k: int| 0 <= k < t.supertype_idxs@.len() ==> idx_plain(#[trigger] t.supertype_idxs@[k])
    &&& opt_idx_plain(t.composite_type.descriptor_idx)
    &&& opt_idx_plain(t.composite_type.describes_idx)
    &&& match t.composite_type.inner {
        CompositeInner::Func { params, results } => (forall|k: int| 0 <= k < params@.len() ==> val_plain(#[trigger] params@[k]))
            && (forall|k: int| 0 <= k < results@.len() ==> val_plain(#[trigger] results@[k])),
        CompositeInner::Array(f) => storage_plain(f.element_type),
        CompositeInner::Struct(fs) => forall|k: int| 0 <= k < fs@.len() ==> storage_plain(#[trigger] fs@[k].element_type),
        CompositeInner::Cont(i) => idx_plain(i),
    }
}

/// A recursion group with a binary form: a group written without `rec`
/// holds one type.
pub open spec fn group_plain(g: CoreRecGroup) -> bool {
    &&& g.explicit || g.types@.len() == 1
    &&& forall|k: int| 0 <= k < g.types@.len() ==> sub_plain(#[trigger] g.types@[k])
}

/// A core type with a binary form.
pub open spec fn core_type_plain(t: CoreType) -> bool {
    match t {
        CoreType::Rec(g) => group_plain(g),
        CoreType::Module(ds) => forall|k: int| 0 <= k < ds@.len() ==> (#[trigger] ds@[k] matches ModuleTypeDeclaration::Type(g) ==> group_plain(g)),
    }
}

/// A declaration of a component type with a binary form.
pub open spec fn comp_decl_plain(d: ComponentTypeDeclaration) -> bool
    decreases d,
{
    match d {
        ComponentTypeDeclaration::CoreType(c) => core_type_plain(c),
        ComponentTypeDeclaration::Type(t) => comp_type_plain(t),
        _ => true,
    }
}

/// A declaration of an instance type with a binary form.
pub open spec fn inst_decl_plain(d: InstanceTypeDeclaration) -> bool
    decreases d,
{
    match d {
        InstanceTypeDeclaration::CoreType(c) => core_type_plain(c),
        InstanceTypeDeclaration::Type(t) => comp_type_plain(t),
        _ => true,
    }
}

/// A component type with a binary form.
pub open spec fn comp_type_plain(t: ComponentType) -> bool
    decreases t,
{
    match t {
        ComponentType::Resource { rep, .. } => val_plain(rep),
        ComponentType::Component(ds) => forall|k: int| 0 <= k < ds@.len() ==> (#[trigger] ds@[k] matches x && comp_decl_plain(x)),
        ComponentType::Instance(ds) => forall|k: int| 0 <= k < ds@.len() ==> (#[trigger] ds@[k] matches x && inst_decl_plain(x)),
        _ => true,
    }
}

/// A canonical function with a binary form.
pub open spec fn canon_plain(c: CanonicalFunction) -> bool {
    match c {
        CanonicalFunction::Builtin(BuiltinOp::Other) => false,
        CanonicalFunction::Builtin(BuiltinOp::ContextGet { ty, .. }) => val_plain(ty),
        CanonicalFunction::Builtin(BuiltinOp::ContextSet { ty, .. }) => val_plain(ty),
        _ => true,
    }
}

fn idx_plain_exec(i: &CoreTypeIndex) -> (r: bool)
    ensures
        r == idx_plain(*i),
{
    match i {
        CoreTypeIndex::Module(_) => true,
        _ => false,
    }
}

fn opt_idx_plain_exec(o: &Option<CoreTypeIndex>) -> (r: bool)
    ensures
        r == opt_idx_plain(*o),
{
    match o {
        Some(i) => idx_plain_exec(i),
        None => true,
    }
}

/// Whether core value type `v` has a binary form.
pub fn val_plain_exec(v: &CoreValType) -> (r: bool)
    ensures
        r == val_plain(*v),
{
    match v {
        CoreValType::Ref { heap, .. } => match heap {
            CoreHeapType::Concrete(i) => idx_plain_exec(i),
            CoreHeapType::Exact(i) => idx_plain_exec(i),
            CoreHeapType::Abstract { .. } => true,
        },
        _ => true,
    }
}

fn storage_plain_exec(s: &CoreStorageType) -> (r: bool)
    ensures
        r == storage_plain(*s),
{
    match s {
        CoreStorageType::Val(v) => val_plain_exec(v),
        _ => true,
    }
}

fn vals_plain_exec(vs: &Vec<CoreValType>) -> (r: bool)
    ensures
        r == forall|k: int| 0 <= k < vs@.len() ==> val_plain(#[trigger] vs@[k]),
{
    for k in 0..vs.len()
        invariant
            forall|j: int| 0 <= j < k ==> val_plain(#[trigger] vs@[j]),
    {
        if !val_plain_exec(&vs[k]) {
            return false;
        }
    }
    true
}

fn sub_plain_exec(t: &CoreSubType) -> (r: bool)
    ensures
        r == sub_plain(*t),
{
    for k in 0..t.supertype_idxs.len()
        invariant
            forall|j: int| 0 <= j < k ==> idx_plain(#[trigger] t.supertype_idxs@[j]),
    {
        if !idx_plain_exec(&t.supertype_idxs[k]) {
            return false;
        }
    }
    if !opt_idx_plain_exec(&t.composite_type.descriptor_idx) || !opt_idx_plain_exec(&t.composite_type.describes_idx) {
        return false;
    }
    match &t.composite_type.inner {
        CompositeInner::Func { params, results } => vals_plain_exec(params) && vals_plain_exec(results),
        CompositeInner::Array(f) => storage_plain_exec(&f.element_type),
        CompositeInner::Struct(fs) => {
            for k in 0..fs.len()
                invariant
                    t.composite_type.inner == CompositeInner::Struct(*fs),
                    forall|j: int| 0 <= j < t.supertype_idxs@.len() ==> idx_plain(#[trigger] t.supertype_idxs@[j]),
                    opt_idx_plain(t.composite_type.descriptor_idx),
                    opt_idx_plain(t.composite_type.describes_idx),
                    forall|j: int| 0 <= j < k ==> storage_plain(#[trigger] fs@[j].element_type),
            {
                if !storage_plain_exec(&fs[k].element_type) {
                    return false;
                }
            }
            true
        },
        CompositeInner::Cont(i) => idx_plain_exec(i),
    }
}

fn group_plain_exec(g: &CoreRecGroup) -> (r: bool)
    ensures
        r == group_plain(*g),
{
    if !g.explicit && g.types.len() != 1 {
        return false;
    }
    for k in 0..g.types.len()
        invariant
            g.explicit || g.types@.len() == 1,
            forall|j: int| 0 <= j < k ==> sub_plain(#[trigger] g.types@[j]),
    {
        if !sub_plain_exec(&g.types[k]) {
            return false;
        }
    }
    true
}

/// Whether core type `t` has a binary form.
pub fn core_type_plain_exec(t: &CoreType) -> (r: bool)
    ensures
        r == core_type_plain(*t),
{
    match t {
        CoreType::Rec(g) => group_plain_exec(g),
        CoreType::Module(ds) => {
            for k in 0..ds.len()
                invariant
                    *t == CoreType::Module(*ds),
                    forall|j: int| 0 <= j < k ==> (#[trigger] ds@[j] matches ModuleTypeDeclaration::Type(g) ==> group_plain(g)),
            {
                if let ModuleTypeDeclaration::Type(g) = &ds[k] {
                    if !group_plain_exec(g) {
                        return false;
                    }
                }
            }
            true
        },
    }
}

/// Whether component type `t` has a binary form.
pub fn comp_type_plain_exec(t: &ComponentType) -> (r: bool)
    ensures
        r == comp_type_plain(*t),
    decreases t,
{
    match t {
        ComponentType::Resource { rep, .. } => val_plain_exec(rep),
        ComponentType::Component(ds) => {
            for k in 0..ds.len()
                invariant
                    *t == ComponentType::Component(*ds),
                    forall|j: int| 0 <= j < k ==> (#[trigger] ds@[j] matches x && comp_decl_plain(x)),
            {
                proof {
                    assert(t->Component_0 == *ds);
                    assert(decreases_to!(*t => t->Component_0));
                    assert(decreases_to!(*ds => ds@));
                    assert(decreases_to!(ds@ => ds@[k as int]));
                }
                let ok = match &ds[k] {
                    ComponentTypeDeclaration::CoreType(c) => core_type_plain_exec(c),
                    ComponentTypeDeclaration::Type(x) => {
                        proof {
                            assert(decreases_to!(ds@[k as int] => ds@[k as int]->Type_0));
                        }
                        comp_type_plain_exec(x)
                    },
                    _ => true,
                };
                if !ok {
                    return false;
                }
            }
            true
        },
        ComponentType::Instance(ds) => {
            for k in 0..ds.len()
                invariant
                    *t == ComponentType::Instance(*ds),
                    forall|j: int| 0 <= j < k ==> (#[trigger] ds@[j] matches x && inst_decl_plain(x)),
            {
                proof {
                    assert(t->Instance_0 == *ds);
                    assert(decreases_to!(*t => t->Instance_0));
                    assert(decreases_to!(*ds => ds@));
                    assert(decreases_to!(ds@ => ds@[k as int]));
                }
                let ok = match &ds[k] {
                    InstanceTypeDeclaration::CoreType(c) => core_type_plain_exec(c),
                    InstanceTypeDeclaration::Type(x) => {
                        proof {
                            assert(decreases_to!(ds@[k as int] => ds@[k as int]->Type_0));
                        }
                        comp_type_plain_exec(x)
                    },
                    _ => true,
                };
                if !ok {
                    return false;
                }
            }
            true
        },
        _ => true,
    }
}

/// Whether canonical function `c` has a binary form.
pub fn canon_plain_exec(c: &CanonicalFunction) -> (r: bool)
    ensures
        r == canon_plain(*c),
{
    match c {
        CanonicalFunction::Builtin(BuiltinOp::Other) => false,
        CanonicalFunction::Builtin(BuiltinOp::ContextGet { ty, .. }) => val_plain_exec(ty),
        CanonicalFunction::Builtin(BuiltinOp::ContextSet { ty, .. }) => val_plain_exec(ty),
        _ => true,
    }
}

/// A section with a binary form.
pub open spec fn item_plain<'a>(e: EncodedItem<'a>) -> bool
    decreases e,
{
    match e {
        EncodedItem::CoreType(t) => core_type_plain(*t),
        EncodedItem::ComponentType(t) => comp_type_plain(*t),
        EncodedItem::FixedType(t) => comp_type_plain(t),
        EncodedItem::Canon(c) => canon_plain(c),
        EncodedItem::Component(v) => forall|k: int| 0 <= k < v@.len() ==> (#[trigger] v@[k] matches x && item_plain(x)),
        _ => true,
    }
}

/// Sections with a binary form.
pub open spec fn items_plain<'a>(s: Seq<EncodedItem<'a>>) -> bool {
    forall|k: int| 0 <= k < s.len() ==> item_plain(#[trigger] s[k])
}

/// Whether section `e` has a binary form.
fn item_plain_exec(e: &EncodedItem<'_>) -> (r: bool)
    ensures
        r == item_plain(*e),
    decreases e,
{
    match e {
        EncodedItem::CoreType(t) => core_type_plain_exec(t),
        EncodedItem::ComponentType(t) => comp_type_plain_exec(t),
        EncodedItem::FixedType(t) => comp_type_plain_exec(t),
        EncodedItem::Canon(c) => canon_plain_exec(c),
        EncodedItem::Component(v) => {
            for k in 0..v.len()
                invariant
                    *e == EncodedItem::Component(*v),
                    forall|j: int| 0 <= j < k ==> (#[trigger] v@[j] matches x && item_plain(x)),
            {
                proof {
                    assert(e->Component_0 == *v);
                    assert(decreases_to!(*e => e->Component_0));
                    assert(decreases_to!(*v => v@));
                    assert(decreases_to!(v@ => v@[k as int]));
                }
                if !item_plain_exec(&v[k]) {
                    return false;
                }
            }
            true
        },
        _ => true,
    }
}

/// Whether the sections `s` have a binary form.
pub fn items_plain_exec(s: &Vec<EncodedItem<'_>>) -> (r: bool)
    ensures
        r == items_plain(s@),
{
    for k in 0..s.len()
        invariant
            forall|j: int| 0 <= j < k ==> item_plain(#[trigger] s@[j]),
    {
        if !item_plain_exec(&s[k]) {
            return false;
        }
    }
    true
}

} // verus!
