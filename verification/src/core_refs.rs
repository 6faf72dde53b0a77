//! The references core types make: to the core types their values point
//! at, to their supertypes and, for a composite type, to its descriptor
//! types.
//!
//! A core type index is read as one of the enclosing core type space; an
//! index relative to a recursion group, or a canonical type identity,
//! cannot be read as a reference, and the functions here require that
//! none is met.

use vstd::prelude::*;
use crate::idx_spaces::{IndexSpaceOf, Space};
use crate::refs::{
    Depth, IndexedRef, RefKind, RefRole, spec_role_of, GetTypeRefs, GetParamRefs, GetResultRefs,
    ReferencedIndices,
};
use crate::item_refs::{plain, concat_refs, lemma_concat_refs_step, lemma_concat_refs_all};
use crate::items::{
    CoreTypeIndex, CoreHeapType, CoreValType, CoreStorageType, CoreFieldType, CompositeInner,
    CoreCompositeType, CoreSubType, CoreRecGroup, CoreType, ModuleTypeDeclaration, CoreTypeRef,
};

verus! {

broadcast use Depth::lemma_at_level;

impl CoreTypeIndex {
    /// The index is one of the enclosing core type space.
    pub open spec fn in_type_space(self) -> bool {
        self is Module
    }
}

/// The reference that index `i` of the enclosing type space makes into
/// `space`.
pub open spec fn index_ref(i: CoreTypeIndex, space: Space) -> RefKind {
    plain(space, i->Module_0)
}

/// Makes the reference that index `i` makes into `space`.
fn make_index_ref(i: CoreTypeIndex, space: Space) -> (r: RefKind)
    requires
        i.in_type_space(),
        space != Space::NA,
    ensures
        r == index_ref(i, space),
{
    let n = match i {
        CoreTypeIndex::Module(n) => n,
        _ => {
            proof {
                assert(false);
            }
            0
        },
    };
    RefKind::new(IndexedRef { depth: Depth::default(), space, index: n })
}

/// The type references of the items `s`, each item's in turn.
pub open spec fn items_type_refs<T: GetTypeRefs>(s: Seq<T>) -> Seq<RefKind> {
    concat_refs(Seq::new(s.len(), |i: int| s[i].spec_type_refs()))
}

/// Collects the type references of the items `items`, each item's in turn.
fn collect_type_refs<T: GetTypeRefs>(items: &Vec<T>) -> (r: Vec<RefKind>)
    requires
        forall|i: int| 0 <= i < items@.len() ==> (#[trigger] items@[i]).type_refs_readable(),
    ensures
        r@ == items_type_refs(items@),
{
    let mut refs: Vec<RefKind> = Vec::new();
    let ghost parts = Seq::new(items@.len(), |i: int| items@[i].spec_type_refs());
    for i in 0..items.len()
        invariant
            forall|i: int| 0 <= i < items@.len() ==> (#[trigger] items@[i]).type_refs_readable(),
            parts == Seq::new(items@.len(), |i: int| items@[i].spec_type_refs()),
            refs@ == concat_refs(parts.take(i as int)),
    {
        let mut more = items[i].get_type_refs();
        let ghost before = refs@;
        refs.append(&mut more);
        proof {
            lemma_concat_refs_step(parts, i as int);
        }
    }
    proof {
        lemma_concat_refs_all(parts);
    }
    refs
}

/// The references of the value types `vals`, the `i`-th's in the role of a
/// parameter (or a result) at position `i`.
pub open spec fn role_refs(vals: Seq<CoreValType>, params: bool) -> Seq<RefKind> {
    concat_refs(
        Seq::new(
            vals.len(),
            |i: int|
                vals[i].spec_type_refs().map_values(
                    |r: RefKind|
                        RefKind {
                            role: if params {
                                RefRole::Param(i as usize)
                            } else {
                                RefRole::Result(i as usize)
                            },
                            ref_: r.ref_,
                        },
                ),
        ),
    )
}

/// Collects the references of the value types `vals`, the `i`-th's in the
/// role of a parameter (or a result) at position `i`.
fn collect_role_refs(vals: &Vec<CoreValType>, params: bool) -> (r: Vec<RefKind>)
    requires
        forall|i: int| 0 <= i < vals@.len() ==> (#[trigger] vals@[i]).type_refs_readable(),
    ensures
        r@ == role_refs(vals@, params),
{
    let mut refs: Vec<RefKind> = Vec::new();
    let ghost parts = Seq::new(
        vals@.len(),
        |i: int|
            vals@[i].spec_type_refs().map_values(
                |r: RefKind|
                    RefKind {
                        role: if params {
                            RefRole::Param(i as usize)
                        } else {
                            RefRole::Result(i as usize)
                        },
                        ref_: r.ref_,
                    },
            ),
    );
    for i in 0..vals.len()
        invariant
            forall|i: int| 0 <= i < vals@.len() ==> (#[trigger] vals@[i]).type_refs_readable(),
            parts == Seq::new(
                vals@.len(),
                |i: int|
                    vals@[i].spec_type_refs().map_values(
                        |r: RefKind|
                            RefKind {
                                role: if params {
                                    RefRole::Param(i as usize)
                                } else {
                                    RefRole::Result(i as usize)
                                },
                                ref_: r.ref_,
                            },
                    ),
            ),
            refs@ == concat_refs(parts.take(i as int)),
    {
        let inner = vals[i].get_type_refs();
        let ghost before = refs@;
        let ghost role = if params {
            RefRole::Param(i as usize)
        } else {
            RefRole::Result(i as usize)
        };
        for j in 0..inner.len()
            invariant
                role == (if params {
                    RefRole::Param(i as usize)
                } else {
                    RefRole::Result(i as usize)
                }),
                refs@ == before + inner@.take(j as int).map_values(|r: RefKind| RefKind { role, ref_: r.ref_ }),
        {
            let r = inner[j].ref_;
            if params {
                refs.push(RefKind::param(i, r));
            } else {
                refs.push(RefKind::result(i, r));
            }
            proof {
                assert(inner@.take(j + 1).map_values(|r: RefKind| RefKind { role, ref_: r.ref_ })
                    =~= inner@.take(j as int).map_values(|r: RefKind| RefKind { role, ref_: r.ref_ }).push(
                    RefKind { role, ref_: inner@[j as int].ref_ },
                ));
            }
        }
        proof {
            assert(inner@.take(inner@.len() as int) =~= inner@);
            assert(parts[i as int] =~= inner@.map_values(|r: RefKind| RefKind { role, ref_: r.ref_ }));
            lemma_concat_refs_step(parts, i as int);
        }
    }
    proof {
        lemma_concat_refs_all(parts);
    }
    refs
}

// ---------------------------------------------------------------------
// Value types, fields and type references
// ---------------------------------------------------------------------

impl GetTypeRefs for CoreValType {
    /// A reference type to a concrete type refers to that core type.
    open spec fn spec_type_refs(&self) -> Seq<RefKind> {
        match self {
            CoreValType::Ref { heap: CoreHeapType::Concrete(i), .. } => seq![index_ref(*i, Space::CoreType)],
            CoreValType::Ref { heap: CoreHeapType::Exact(i), .. } => seq![index_ref(*i, Space::CoreType)],
            _ => Seq::empty(),
        }
    }

    open spec fn type_refs_readable(&self) -> bool {
        match self {
            CoreValType::Ref { heap: CoreHeapType::Concrete(i), .. } => i.in_type_space(),
            CoreValType::Ref { heap: CoreHeapType::Exact(i), .. } => i.in_type_space(),
            _ => true,
        }
    }

    fn get_type_refs(&self) -> (r: Vec<RefKind>) {
        let v = match self {
            CoreValType::Ref { heap: CoreHeapType::Concrete(i), .. } => vec![make_index_ref(*i, Space::CoreType)],
            CoreValType::Ref { heap: CoreHeapType::Exact(i), .. } => vec![make_index_ref(*i, Space::CoreType)],
            _ => Vec::new(),
        };
        proof {
            assert(v@ =~= self.spec_type_refs());
        }
        v
    }
}

impl ReferencedIndices for CoreValType {
    open spec fn spec_referenced_indices(&self) -> Seq<RefKind> {
        self.spec_type_refs()
    }

    open spec fn refs_readable(&self) -> bool {
        self.type_refs_readable()
    }

    fn referenced_indices(&self) -> (r: Vec<RefKind>) {
        self.get_type_refs()
    }
}

impl GetTypeRefs for CoreStorageType {
    /// A field of a value type refers to what the value type refers to.
    open spec fn spec_type_refs(&self) -> Seq<RefKind> {
        match self {
            CoreStorageType::Val(v) => v.spec_type_refs(),
            _ => Seq::empty(),
        }
    }

    open spec fn type_refs_readable(&self) -> bool {
        match self {
            CoreStorageType::Val(v) => v.type_refs_readable(),
            _ => true,
        }
    }

    fn get_type_refs(&self) -> (r: Vec<RefKind>) {
        match self {
            CoreStorageType::Val(v) => v.get_type_refs(),
            _ => {
                let v = Vec::new();
                proof {
                    assert(v@ =~= self.spec_type_refs());
                }
                v
            },
        }
    }
}

impl ReferencedIndices for CoreStorageType {
    open spec fn spec_referenced_indices(&self) -> Seq<RefKind> {
        self.spec_type_refs()
    }

    open spec fn refs_readable(&self) -> bool {
        self.type_refs_readable()
    }

    fn referenced_indices(&self) -> (r: Vec<RefKind>) {
        self.get_type_refs()
    }
}

impl GetTypeRefs for CoreFieldType {
    /// A field refers to what its element type refers to.
    open spec fn spec_type_refs(&self) -> Seq<RefKind> {
        self.element_type.spec_type_refs()
    }

    open spec fn type_refs_readable(&self) -> bool {
        self.element_type.type_refs_readable()
    }

    fn get_type_refs(&self) -> (r: Vec<RefKind>) {
        self.element_type.get_type_refs()
    }
}

impl ReferencedIndices for CoreFieldType {
    open spec fn spec_referenced_indices(&self) -> Seq<RefKind> {
        self.spec_type_refs()
    }

    open spec fn refs_readable(&self) -> bool {
        self.type_refs_readable()
    }

    fn referenced_indices(&self) -> (r: Vec<RefKind>) {
        self.get_type_refs()
    }
}

impl GetTypeRefs for CoreTypeRef {
    /// An imported or exported function or tag names its core function
    /// type.
    open spec fn spec_type_refs(&self) -> Seq<RefKind> {
        match self {
            CoreTypeRef::Func(i) => seq![plain(Space::CoreType, *i)],
            CoreTypeRef::Tag { func_type_idx, .. } => seq![plain(Space::CoreType, *func_type_idx)],
            _ => Seq::empty(),
        }
    }

    fn get_type_refs(&self) -> (r: Vec<RefKind>) {
        let v = match self {
            CoreTypeRef::Func(i) => vec![RefKind::new(IndexedRef { depth: Depth::default(), space: Space::CoreType, index: *i })],
            CoreTypeRef::Tag { func_type_idx, .. } => vec![
                RefKind::new(IndexedRef { depth: Depth::default(), space: Space::CoreType, index: *func_type_idx }),
            ],
            _ => Vec::new(),
        };
        proof {
            assert(v@ =~= self.spec_type_refs());
        }
        v
    }
}

impl ReferencedIndices for CoreTypeRef {
    open spec fn spec_referenced_indices(&self) -> Seq<RefKind> {
        self.spec_type_refs()
    }

    fn referenced_indices(&self) -> (r: Vec<RefKind>) {
        self.get_type_refs()
    }
}

// ---------------------------------------------------------------------
// Composite types
// ---------------------------------------------------------------------

impl GetTypeRefs for CompositeInner {
    /// An array refers to what its field refers to, a struct to what its
    /// fields refer to, in turn, and a continuation to its function type
    /// (in the component type space); a function type's references are
    /// those of its parameters and results.
    open spec fn spec_type_refs(&self) -> Seq<RefKind> {
        match self {
            CompositeInner::Array(f) => f.spec_type_refs(),
            CompositeInner::Struct(fs) => items_type_refs(fs@),
            CompositeInner::Cont(i) => seq![index_ref(*i, Space::CompType)],
            CompositeInner::Func { .. } => Seq::empty(),
        }
    }

    open spec fn type_refs_readable(&self) -> bool {
        match self {
            CompositeInner::Array(f) => f.type_refs_readable(),
            CompositeInner::Struct(fs) => forall|i: int| 0 <= i < fs@.len() ==> (#[trigger] fs@[i]).type_refs_readable(),
            CompositeInner::Cont(i) => i.in_type_space(),
            CompositeInner::Func { .. } => true,
        }
    }

    fn get_type_refs(&self) -> (r: Vec<RefKind>) {
        match self {
            CompositeInner::Array(f) => f.get_type_refs(),
            CompositeInner::Struct(fs) => collect_type_refs(fs),
            CompositeInner::Cont(i) => {
                let v = vec![make_index_ref(*i, Space::CompType)];
                proof {
                    assert(v@ =~= self.spec_type_refs());
                }
                v
            },
            CompositeInner::Func { .. } => {
                let v = Vec::new();
                proof {
                    assert(v@ =~= self.spec_type_refs());
                }
                v
            },
        }
    }
}

impl GetParamRefs for CompositeInner {
    /// A function type's parameters, each in its role.
    open spec fn spec_param_refs(&self) -> Seq<RefKind> {
        match self {
            CompositeInner::Func { params, .. } => role_refs(params@, true),
            _ => Seq::empty(),
        }
    }

    open spec fn param_refs_readable(&self) -> bool {
        match self {
            CompositeInner::Func { params, .. } => forall|i: int|
                0 <= i < params@.len() ==> (#[trigger] params@[i]).type_refs_readable(),
            _ => true,
        }
    }

    fn get_param_refs(&self) -> (r: Vec<RefKind>) {
        match self {
            CompositeInner::Func { params, .. } => collect_role_refs(params, true),
            _ => {
                let v = Vec::new();
                proof {
                    assert(v@ =~= self.spec_param_refs());
                }
                v
            },
        }
    }
}

impl GetResultRefs for CompositeInner {
    /// A function type's results, each in its role.
    open spec fn spec_result_refs(&self) -> Seq<RefKind> {
        match self {
            CompositeInner::Func { results, .. } => role_refs(results@, false),
            _ => Seq::empty(),
        }
    }

    open spec fn result_refs_readable(&self) -> bool {
        match self {
            CompositeInner::Func { results, .. } => forall|i: int|
                0 <= i < results@.len() ==> (#[trigger] results@[i]).type_refs_readable(),
            _ => true,
        }
    }

    fn get_result_refs(&self) -> (r: Vec<RefKind>) {
        match self {
            CompositeInner::Func { results, .. } => collect_role_refs(results, false),
            _ => {
                let v = Vec::new();
                proof {
                    assert(v@ =~= self.spec_result_refs());
                }
                v
            },
        }
    }
}

impl ReferencedIndices for CompositeInner {
    open spec fn spec_referenced_indices(&self) -> Seq<RefKind> {
        self.spec_type_refs() + self.spec_param_refs() + self.spec_result_refs()
    }

    open spec fn refs_readable(&self) -> bool {
        &&& self.type_refs_readable()
        &&& self.param_refs_readable()
        &&& self.result_refs_readable()
    }

    fn referenced_indices(&self) -> (r: Vec<RefKind>) {
        let mut refs = self.get_type_refs();
        let mut p = self.get_param_refs();
        refs.append(&mut p);
        let mut q = self.get_result_refs();
        refs.append(&mut q);
        refs
    }
}

/// The reference an optional descriptor index makes, in role `role` (in
/// the component type space).
pub open spec fn descriptor_refs(i: Option<CoreTypeIndex>, role: RefRole) -> Seq<RefKind> {
    match i {
        Some(i) => seq![RefKind { role, ref_: index_ref(i, Space::CompType).ref_ }],
        None => Seq::empty(),
    }
}

impl GetTypeRefs for CoreCompositeType {
    /// The references of its shape, then its descriptor and the type it
    /// describes.
    open spec fn spec_type_refs(&self) -> Seq<RefKind> {
        self.inner.spec_type_refs() + descriptor_refs(self.descriptor_idx, RefRole::Descriptor) + descriptor_refs(
            self.describes_idx,
            RefRole::Describes,
        )
    }

    open spec fn type_refs_readable(&self) -> bool {
        &&& self.inner.type_refs_readable()
        &&& (self.descriptor_idx matches Some(i) ==> i.in_type_space())
        &&& (self.describes_idx matches Some(i) ==> i.in_type_space())
    }

    fn get_type_refs(&self) -> (r: Vec<RefKind>) {
        let mut refs = self.inner.get_type_refs();
        if let Some(i) = self.descriptor_idx {
            let k = make_index_ref(i, Space::CompType);
            refs.push(RefKind::descriptor(k.ref_));
        }
        if let Some(i) = self.describes_idx {
            let k = make_index_ref(i, Space::CompType);
            refs.push(RefKind::describes(k.ref_));
        }
        proof {
            assert(refs@ =~= self.spec_type_refs());
        }
        refs
    }
}

impl GetParamRefs for CoreCompositeType {
    open spec fn spec_param_refs(&self) -> Seq<RefKind> {
        self.inner.spec_param_refs()
    }

    open spec fn param_refs_readable(&self) -> bool {
        self.inner.param_refs_readable()
    }

    fn get_param_refs(&self) -> (r: Vec<RefKind>) {
        self.inner.get_param_refs()
    }
}

impl GetResultRefs for CoreCompositeType {
    open spec fn spec_result_refs(&self) -> Seq<RefKind> {
        self.inner.spec_result_refs()
    }

    open spec fn result_refs_readable(&self) -> bool {
        self.inner.result_refs_readable()
    }

    fn get_result_refs(&self) -> (r: Vec<RefKind>) {
        self.inner.get_result_refs()
    }
}

impl ReferencedIndices for CoreCompositeType {
    open spec fn spec_referenced_indices(&self) -> Seq<RefKind> {
        self.spec_type_refs() + self.spec_param_refs() + self.spec_result_refs()
    }

    open spec fn refs_readable(&self) -> bool {
        &&& self.type_refs_readable()
        &&& self.param_refs_readable()
        &&& self.result_refs_readable()
    }

    fn referenced_indices(&self) -> (r: Vec<RefKind>) {
        let mut refs = self.get_type_refs();
        let mut p = self.get_param_refs();
        refs.append(&mut p);
        let mut q = self.get_result_refs();
        refs.append(&mut q);
        refs
    }
}

// ---------------------------------------------------------------------
// Recursion groups and core types
// ---------------------------------------------------------------------

/// The references the supertype indices `s` make, in turn.
pub open spec fn supertype_refs(s: Seq<CoreTypeIndex>) -> Seq<RefKind> {
    s.map_values(|i: CoreTypeIndex| index_ref(i, Space::CoreType))
}

impl GetTypeRefs for CoreSubType {
    /// Its supertypes, then what its composite type refers to (not its
    /// parameters and results).
    open spec fn spec_type_refs(&self) -> Seq<RefKind> {
        supertype_refs(self.supertype_idxs@) + self.composite_type.spec_type_refs()
    }

    open spec fn type_refs_readable(&self) -> bool {
        &&& forall|i: int| 0 <= i < self.supertype_idxs@.len() ==> (#[trigger] self.supertype_idxs@[i]).in_type_space()
        &&& self.composite_type.type_refs_readable()
    }

    fn get_type_refs(&self) -> (r: Vec<RefKind>) {
        let mut refs: Vec<RefKind> = Vec::new();
        let n = self.supertype_idxs.len();
        for i in 0..n
            invariant
                n == self.supertype_idxs@.len(),
                forall|i: int| 0 <= i < self.supertype_idxs@.len() ==> (#[trigger] self.supertype_idxs@[i]).in_type_space(),
                refs@ == supertype_refs(self.supertype_idxs@.take(i as int)),
        {
            refs.push(make_index_ref(self.supertype_idxs[i], Space::CoreType));
            proof {
                assert(supertype_refs(self.supertype_idxs@.take(i + 1)) =~= supertype_refs(
                    self.supertype_idxs@.take(i as int),
                ).push(index_ref(self.supertype_idxs@[i as int], Space::CoreType)));
            }
        }
        proof {
            assert(self.supertype_idxs@.take(n as int) =~= self.supertype_idxs@);
        }
        let mut more = self.composite_type.get_type_refs();
        refs.append(&mut more);
        refs
    }
}

impl ReferencedIndices for CoreSubType {
    open spec fn spec_referenced_indices(&self) -> Seq<RefKind> {
        self.spec_type_refs()
    }

    open spec fn refs_readable(&self) -> bool {
        self.type_refs_readable()
    }

    fn referenced_indices(&self) -> (r: Vec<RefKind>) {
        self.get_type_refs()
    }
}

impl GetTypeRefs for CoreRecGroup {
    /// What its types refer to, in turn.
    open spec fn spec_type_refs(&self) -> Seq<RefKind> {
        items_type_refs(self.types@)
    }

    open spec fn type_refs_readable(&self) -> bool {
        forall|i: int| 0 <= i < self.types@.len() ==> (#[trigger] self.types@[i]).type_refs_readable()
    }

    fn get_type_refs(&self) -> (r: Vec<RefKind>) {
        collect_type_refs(&self.types)
    }
}

impl ReferencedIndices for CoreRecGroup {
    open spec fn spec_referenced_indices(&self) -> Seq<RefKind> {
        self.spec_type_refs()
    }

    open spec fn refs_readable(&self) -> bool {
        self.type_refs_readable()
    }

    fn referenced_indices(&self) -> (r: Vec<RefKind>) {
        self.get_type_refs()
    }
}

impl GetTypeRefs for CoreType {
    /// What a recursion group refers to; a module type's declarations
    /// refer inside its own scope.
    open spec fn spec_type_refs(&self) -> Seq<RefKind> {
        match self {
            CoreType::Rec(g) => g.spec_type_refs(),
            CoreType::Module(_) => Seq::empty(),
        }
    }

    open spec fn type_refs_readable(&self) -> bool {
        match self {
            CoreType::Rec(g) => g.type_refs_readable(),
            CoreType::Module(_) => true,
        }
    }

    fn get_type_refs(&self) -> (r: Vec<RefKind>) {
        match self {
            CoreType::Rec(g) => g.get_type_refs(),
            CoreType::Module(_) => {
                let v = Vec::new();
                proof {
                    assert(v@ =~= self.spec_type_refs());
                }
                v
            },
        }
    }
}

impl ReferencedIndices for CoreType {
    open spec fn spec_referenced_indices(&self) -> Seq<RefKind> {
        self.spec_type_refs()
    }

    open spec fn refs_readable(&self) -> bool {
        self.type_refs_readable()
    }

    fn referenced_indices(&self) -> (r: Vec<RefKind>) {
        self.get_type_refs()
    }
}

impl GetTypeRefs for ModuleTypeDeclaration {
    /// A declared recursion group, exported or imported item refers to
    /// core types; an outer alias to the item it aliases, `count` scopes
    /// out.
    open spec fn spec_type_refs(&self) -> Seq<RefKind> {
        match self {
            ModuleTypeDeclaration::Type(g) => g.spec_type_refs(),
            ModuleTypeDeclaration::Export { ty, .. } => ty.spec_type_refs(),
            ModuleTypeDeclaration::Import { ty, .. } => ty.spec_type_refs(),
            ModuleTypeDeclaration::OuterAlias { kind, count, index } => seq![
                RefKind {
                    role: spec_role_of(kind.space_of()),
                    ref_: IndexedRef { depth: Depth::at_level(*count as usize), space: kind.space_of(), index: *index },
                },
            ],
        }
    }

    open spec fn type_refs_readable(&self) -> bool {
        match self {
            ModuleTypeDeclaration::Type(g) => g.type_refs_readable(),
            _ => true,
        }
    }

    fn get_type_refs(&self) -> (r: Vec<RefKind>) {
        match self {
            ModuleTypeDeclaration::Type(g) => g.get_type_refs(),
            ModuleTypeDeclaration::Export { ty, .. } => ty.get_type_refs(),
            ModuleTypeDeclaration::Import { ty, .. } => ty.get_type_refs(),
            ModuleTypeDeclaration::OuterAlias { kind, count, index } => {
                let space = kind.index_space_of();
                let depth = Depth::default().outer_at(*count);
                let v = vec![RefKind::new(IndexedRef { depth, space, index: *index })];
                proof {
                    assert(v@ =~= self.spec_type_refs());
                }
                v
            },
        }
    }
}

impl ReferencedIndices for ModuleTypeDeclaration {
    open spec fn spec_referenced_indices(&self) -> Seq<RefKind> {
        self.spec_type_refs()
    }

    open spec fn refs_readable(&self) -> bool {
        self.type_refs_readable()
    }

    fn referenced_indices(&self) -> (r: Vec<RefKind>) {
        self.get_type_refs()
    }
}

} // verus!
