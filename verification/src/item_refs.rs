//! The references each IR node makes into index spaces.
//!
//! References of a node are listed in the order of its fields; a list of
//! sub-nodes contributes the references of each sub-node in turn. Nodes
//! that open a scope of their own (component, instance and core module
//! types) do not list the references their declarations make inside that
//! scope, except those that a declaration makes outward.

use vstd::prelude::*;
use crate::idx_spaces::{IndexSpaceOf, Space};
use crate::refs::{
    Depth, IndexedRef, RefKind, RefRole, spec_role_of, GetTypeRefs, GetItemRef, GetItemRefs,
    GetFuncRefs, GetFuncRef, GetMemRefs, GetTableRefs, GetModuleRefs, GetCompRefs, GetArgRefs,
    GetParamRefs, GetResultRefs, ReferencedIndices,
};
use crate::items::{
    ComponentValType, TypeBounds, ComponentTypeRef, ComponentImport, ComponentExport,
    ComponentAlias, InstantiationArg, Export, Instance, ComponentInstantiationArg,
    ComponentInstance, ComponentStartFunction, CanonicalOption, CanonicalFunction, VariantCase,
    ComponentDefinedType, ComponentFuncType, ComponentType, ComponentTypeDeclaration,
    InstanceTypeDeclaration,
};

verus! {

broadcast use Depth::lemma_at_level;

/// A reference of the current scope into `space`, with the role that
/// follows from the space.
pub open spec fn plain(space: Space, index: u32) -> RefKind {
    RefKind {
        role: spec_role_of(space),
        ref_: IndexedRef { depth: Depth::at_level(0), space, index },
    }
}

/// The references of a list of sub-nodes, each sub-node's in turn.
pub open spec fn concat_refs(s: Seq<Seq<RefKind>>) -> Seq<RefKind>
    decreases s.len(),
{
    if s.len() == 0 {
        Seq::empty()
    } else {
        concat_refs(s.drop_last()) + s.last()
    }
}

/// Adding the references of one more sub-node.
pub proof fn lemma_concat_refs_step(s: Seq<Seq<RefKind>>, i: int)
    requires
        0 <= i < s.len(),
    ensures
        concat_refs(s.take(i + 1)) == concat_refs(s.take(i)) + s[i],
{
    assert(s.take(i + 1).drop_last() =~= s.take(i));
}

/// The references of a list of all its sub-nodes.
pub proof fn lemma_concat_refs_all(s: Seq<Seq<RefKind>>)
    ensures
        concat_refs(s.take(s.len() as int)) == concat_refs(s),
{
    assert(s.take(s.len() as int) =~= s);
}

/// Makes a reference of the current scope into `space`.
fn plain_ref(space: Space, index: u32) -> (r: RefKind)
    requires
        space != Space::NA,
    ensures
        r == plain(space, index),
{
    RefKind::new(IndexedRef { depth: Depth::default(), space, index })
}

// ---------------------------------------------------------------------
// Value types and type references
// ---------------------------------------------------------------------

/// The reference a value type makes, if any.
pub open spec fn val_refs(v: ComponentValType) -> Seq<RefKind> {
    match v {
        ComponentValType::Primitive(_) => Seq::empty(),
        ComponentValType::Type(id) => seq![plain(Space::CompType, id)],
    }
}

/// The references of an optional value type.
pub open spec fn opt_val_refs(v: Option<ComponentValType>) -> Seq<RefKind> {
    match v {
        Some(t) => val_refs(t),
        None => Seq::empty(),
    }
}

impl GetTypeRefs for ComponentValType {
    open spec fn spec_type_refs(&self) -> Seq<RefKind> {
        val_refs(*self)
    }

    fn get_type_refs(&self) -> (r: Vec<RefKind>) {
        match self {
            ComponentValType::Primitive(_) => {
                let v = Vec::new();
                proof {
                    assert(v@ =~= self.spec_type_refs());
                }
                v
            },
            ComponentValType::Type(id) => {
                let v = vec![plain_ref(Space::CompType, *id)];
                proof {
                    assert(v@ =~= val_refs(*self));
                }
                v
            },
        }
    }
}

/// Appends the references of an optional value type.
fn push_opt_val_refs(refs: &mut Vec<RefKind>, v: &Option<ComponentValType>)
    ensures
        final(refs)@ == old(refs)@ + opt_val_refs(*v),
{
    if let Some(t) = v {
        let mut more = t.get_type_refs();
        refs.append(&mut more);
    } else {
        proof {
            assert(final(refs)@ =~= old(refs)@ + opt_val_refs(*v));
        }
    }
}

impl GetTypeRefs for TypeBounds {
    open spec fn spec_type_refs(&self) -> Seq<RefKind> {
        match self {
            TypeBounds::Eq(id) => seq![plain(Space::CompType, *id)],
            TypeBounds::SubResource => Seq::empty(),
        }
    }

    fn get_type_refs(&self) -> (r: Vec<RefKind>) {
        match self {
            TypeBounds::Eq(id) => {
                let v = vec![plain_ref(Space::CompType, *id)];
                proof {
                    assert(v@ =~= self.spec_type_refs());
                }
                v
            },
            TypeBounds::SubResource => Vec::new(),
        }
    }
}

impl GetTypeRefs for ComponentTypeRef {
    /// A module type lives in the core type space; every other type
    /// reference names a component type.
    open spec fn spec_type_refs(&self) -> Seq<RefKind> {
        match self {
            ComponentTypeRef::Module(id) => seq![plain(Space::CoreType, *id)],
            ComponentTypeRef::Func(id) => seq![plain(Space::CompType, *id)],
            ComponentTypeRef::Instance(id) => seq![plain(Space::CompType, *id)],
            ComponentTypeRef::Component(id) => seq![plain(Space::CompType, *id)],
            ComponentTypeRef::Value(t) => val_refs(*t),
            ComponentTypeRef::Type(b) => b.spec_type_refs(),
        }
    }

    fn get_type_refs(&self) -> (r: Vec<RefKind>) {
        let v = match self {
            ComponentTypeRef::Module(id) => vec![plain_ref(Space::CoreType, *id)],
            ComponentTypeRef::Func(id) => vec![plain_ref(Space::CompType, *id)],
            ComponentTypeRef::Instance(id) => vec![plain_ref(Space::CompType, *id)],
            ComponentTypeRef::Component(id) => vec![plain_ref(Space::CompType, *id)],
            ComponentTypeRef::Value(t) => t.get_type_refs(),
            ComponentTypeRef::Type(b) => b.get_type_refs(),
        };
        proof {
            assert(v@ =~= self.spec_type_refs());
        }
        v
    }
}

/// The references of an optional type reference.
pub open spec fn opt_ty_refs(t: Option<ComponentTypeRef>) -> Seq<RefKind> {
    match t {
        Some(ty) => ty.spec_type_refs(),
        None => Seq::empty(),
    }
}

// ---------------------------------------------------------------------
// Imports, exports, aliases, instances, start functions
// ---------------------------------------------------------------------

impl GetTypeRefs for ComponentImport {
    open spec fn spec_type_refs(&self) -> Seq<RefKind> {
        self.ty.spec_type_refs()
    }

    fn get_type_refs(&self) -> (r: Vec<RefKind>) {
        self.ty.get_type_refs()
    }
}

impl ReferencedIndices for ComponentImport {
    open spec fn spec_referenced_indices(&self) -> Seq<RefKind> {
        self.spec_type_refs()
    }

    fn referenced_indices(&self) -> (r: Vec<RefKind>) {
        self.get_type_refs()
    }
}

impl GetTypeRefs for ComponentExport {
    open spec fn spec_type_refs(&self) -> Seq<RefKind> {
        opt_ty_refs(self.ty)
    }

    fn get_type_refs(&self) -> (r: Vec<RefKind>) {
        match &self.ty {
            Some(t) => t.get_type_refs(),
            None => Vec::new(),
        }
    }
}

impl GetItemRef for ComponentExport {
    /// The exported item, in the index space of its kind.
    open spec fn spec_item_ref(&self) -> RefKind {
        plain(self.kind.space_of(), self.index)
    }

    fn get_item_ref(&self) -> (r: RefKind) {
        plain_ref(self.kind.index_space_of(), self.index)
    }
}

impl ReferencedIndices for ComponentExport {
    open spec fn spec_referenced_indices(&self) -> Seq<RefKind> {
        self.spec_type_refs().push(self.spec_item_ref())
    }

    fn referenced_indices(&self) -> (r: Vec<RefKind>) {
        let mut refs = self.get_type_refs();
        refs.push(self.get_item_ref());
        refs
    }
}

impl GetItemRef for Export {
    open spec fn spec_item_ref(&self) -> RefKind {
        plain(self.kind.space_of(), self.index)
    }

    fn get_item_ref(&self) -> (r: RefKind) {
        plain_ref(self.kind.index_space_of(), self.index)
    }
}

impl GetItemRef for InstantiationArg {
    open spec fn spec_item_ref(&self) -> RefKind {
        plain(self.kind.space_of(), self.index)
    }

    fn get_item_ref(&self) -> (r: RefKind) {
        plain_ref(self.kind.index_space_of(), self.index)
    }
}

impl GetItemRef for ComponentInstantiationArg {
    open spec fn spec_item_ref(&self) -> RefKind {
        plain(self.kind.space_of(), self.index)
    }

    fn get_item_ref(&self) -> (r: RefKind) {
        plain_ref(self.kind.index_space_of(), self.index)
    }
}

impl GetItemRef for ComponentAlias {
    /// The instance an export is aliased from, or the outer item.
    open spec fn spec_item_ref(&self) -> RefKind {
        match self {
            ComponentAlias::InstanceExport { instance_index, .. } => plain(Space::CompInst, *instance_index),
            ComponentAlias::CoreInstanceExport { instance_index, .. } => plain(Space::CoreInst, *instance_index),
            ComponentAlias::Outer { kind, count, index } => RefKind {
                role: spec_role_of(kind.space_of()),
                ref_: IndexedRef { depth: Depth::at_level(*count as usize), space: kind.space_of(), index: *index },
            },
        }
    }

    fn get_item_ref(&self) -> (r: RefKind) {
        match self {
            ComponentAlias::InstanceExport { instance_index, .. } => plain_ref(Space::CompInst, *instance_index),
            ComponentAlias::CoreInstanceExport { instance_index, .. } => plain_ref(Space::CoreInst, *instance_index),
            ComponentAlias::Outer { kind, count, index } => {
                let depth = Depth::default().outer_at(*count);
                RefKind::new(IndexedRef { depth, space: kind.index_space_of(), index: *index })
            },
        }
    }
}

impl ReferencedIndices for ComponentAlias {
    open spec fn spec_referenced_indices(&self) -> Seq<RefKind> {
        seq![self.spec_item_ref()]
    }

    fn referenced_indices(&self) -> (r: Vec<RefKind>) {
        let v = vec![self.get_item_ref()];
        proof {
            assert(v@ =~= self.spec_referenced_indices());
        }
        v
    }
}

/// The item references of a list of nodes that each make one.
pub open spec fn item_refs_of<T: GetItemRef>(s: Seq<T>) -> Seq<RefKind> {
    s.map_values(|x: T| x.spec_item_ref())
}

/// The item references of each node of `items`, in order.
fn collect_item_refs<T: GetItemRef>(items: &Vec<T>) -> (r: Vec<RefKind>)
    ensures
        r@ == item_refs_of(items@),
{
    let mut refs: Vec<RefKind> = Vec::new();
    for i in 0..items.len()
        invariant
            refs@ =~= item_refs_of(items@.take(i as int)),
    {
        refs.push(items[i].get_item_ref());
        proof {
            assert(item_refs_of(items@.take(i + 1)) =~= item_refs_of(items@.take(i as int)).push(
                items@[i as int].spec_item_ref(),
            ));
        }
    }
    proof {
        assert(items@.take(items@.len() as int) =~= items@);
    }
    refs
}

impl GetModuleRefs for Instance {
    open spec fn spec_module_refs(&self) -> Seq<RefKind> {
        match self {
            Instance::Instantiate { module_index, .. } => seq![plain(Space::CoreModule, *module_index)],
            Instance::FromExports(_) => Seq::empty(),
        }
    }

    fn get_module_refs(&self) -> (r: Vec<RefKind>) {
        match self {
            Instance::Instantiate { module_index, .. } => {
                let v = vec![plain_ref(Space::CoreModule, *module_index)];
                proof {
                    assert(v@ =~= self.spec_module_refs());
                }
                v
            },
            Instance::FromExports(_) => Vec::new(),
        }
    }
}

impl GetItemRefs for Instance {
    open spec fn spec_item_refs(&self) -> Seq<RefKind> {
        match self {
            Instance::Instantiate { args, .. } => item_refs_of(args@),
            Instance::FromExports(exports) => item_refs_of(exports@),
        }
    }

    fn get_item_refs(&self) -> (r: Vec<RefKind>) {
        match self {
            Instance::Instantiate { args, .. } => collect_item_refs(args),
            Instance::FromExports(exports) => collect_item_refs(exports),
        }
    }
}

impl ReferencedIndices for Instance {
    open spec fn spec_referenced_indices(&self) -> Seq<RefKind> {
        self.spec_module_refs() + self.spec_item_refs()
    }

    fn referenced_indices(&self) -> (r: Vec<RefKind>) {
        let mut refs = self.get_module_refs();
        let mut more = self.get_item_refs();
        refs.append(&mut more);
        refs
    }
}

impl GetCompRefs for ComponentInstance {
    open spec fn spec_comp_refs(&self) -> Seq<RefKind> {
        match self {
            ComponentInstance::Instantiate { component_index, .. } => seq![plain(Space::Comp, *component_index)],
            ComponentInstance::FromExports(_) => Seq::empty(),
        }
    }

    fn get_comp_refs(&self) -> (r: Vec<RefKind>) {
        match self {
            ComponentInstance::Instantiate { component_index, .. } => {
                let v = vec![plain_ref(Space::Comp, *component_index)];
                proof {
                    assert(v@ =~= self.spec_comp_refs());
                }
                v
            },
            ComponentInstance::FromExports(_) => Vec::new(),
        }
    }
}

impl GetItemRefs for ComponentInstance {
    open spec fn spec_item_refs(&self) -> Seq<RefKind> {
        match self {
            ComponentInstance::Instantiate { args, .. } => item_refs_of(args@),
            ComponentInstance::FromExports(exports) => item_refs_of(exports@),
        }
    }

    fn get_item_refs(&self) -> (r: Vec<RefKind>) {
        match self {
            ComponentInstance::Instantiate { args, .. } => collect_item_refs(args),
            ComponentInstance::FromExports(exports) => collect_item_refs(exports),
        }
    }
}

impl ReferencedIndices for ComponentInstance {
    open spec fn spec_referenced_indices(&self) -> Seq<RefKind> {
        self.spec_comp_refs() + self.spec_item_refs()
    }

    fn referenced_indices(&self) -> (r: Vec<RefKind>) {
        let mut refs = self.get_comp_refs();
        let mut more = self.get_item_refs();
        refs.append(&mut more);
        refs
    }
}

/// A core instance that instantiates a module refers, in its own scope,
/// to that module and to the instance each argument passes, and to
/// nothing else; a component instance that instantiates a component
/// refers to that component and to the item each argument passes, and to
/// nothing else.
pub proof fn law_instantiation_refers_to_what_it_instantiates(i: Instance, ci: ComponentInstance)
    ensures
        i is Instantiate ==> forall|x: RefKind|
            #[trigger] i.spec_referenced_indices().contains(x) <==> (x == plain(Space::CoreModule, i->module_index)
                || exists|k: int| 0 <= k < i->args@.len() && (#[trigger] i->args@[k]).spec_item_ref() == x),
        ci is Instantiate ==> forall|x: RefKind|
            #[trigger] ci.spec_referenced_indices().contains(x) <==> (x == plain(Space::Comp, ci->component_index)
                || exists|k: int| 0 <= k < ci->args@.len() && (#[trigger] ci->args@[k]).spec_item_ref() == x),
{
    if i is Instantiate {
        let refs = i.spec_referenced_indices();
        let args = i->args@;
        assert forall|x: RefKind| #[trigger] refs.contains(x) <==> (x == plain(Space::CoreModule, i->module_index)
            || exists|k: int| 0 <= k < args.len() && (#[trigger] args[k]).spec_item_ref() == x) by {
            if refs.contains(x) {
                let j = choose|j: int| 0 <= j < refs.len() && refs[j] == x;
                if j > 0 {
                    assert(args[j - 1].spec_item_ref() == x);
                }
            }
            if x == plain(Space::CoreModule, i->module_index) {
                assert(refs[0] == x);
            }
            if exists|k: int| 0 <= k < args.len() && (#[trigger] args[k]).spec_item_ref() == x {
                let k = choose|k: int| 0 <= k < args.len() && (#[trigger] args[k]).spec_item_ref() == x;
                assert(refs[k + 1] == x);
            }
        }
    }
    if ci is Instantiate {
        let refs = ci.spec_referenced_indices();
        let args = ci->args@;
        assert forall|x: RefKind| #[trigger] refs.contains(x) <==> (x == plain(Space::Comp, ci->component_index)
            || exists|k: int| 0 <= k < args.len() && (#[trigger] args[k]).spec_item_ref() == x) by {
            if refs.contains(x) {
                let j = choose|j: int| 0 <= j < refs.len() && refs[j] == x;
                if j > 0 {
                    assert(args[j - 1].spec_item_ref() == x);
                }
            }
            if x == plain(Space::Comp, ci->component_index) {
                assert(refs[0] == x);
            }
            if exists|k: int| 0 <= k < args.len() && (#[trigger] args[k]).spec_item_ref() == x {
                let k = choose|k: int| 0 <= k < args.len() && (#[trigger] args[k]).spec_item_ref() == x;
                assert(refs[k + 1] == x);
            }
        }
    }
}

impl GetFuncRef for ComponentStartFunction {
    open spec fn spec_func_ref(&self) -> RefKind {
        plain(Space::CompFunc, self.func_index)
    }

    fn get_func_ref(&self) -> (r: RefKind) {
        plain_ref(Space::CompFunc, self.func_index)
    }
}

/// The reference the start-function argument at position `i` makes; it
/// carries the role of a result at that position.
pub open spec fn start_arg_ref(args: Seq<u32>, i: int) -> RefKind {
    RefKind {
        role: RefRole::Result(i as usize),
        ref_: IndexedRef { depth: Depth::at_level(0), space: Space::CompVal, index: args[i] },
    }
}

impl GetArgRefs for ComponentStartFunction {
    open spec fn spec_arg_refs(&self) -> Seq<RefKind> {
        Seq::new(self.arguments@.len(), |i: int| start_arg_ref(self.arguments@, i))
    }

    fn get_arg_refs(&self) -> (r: Vec<RefKind>) {
        let mut refs: Vec<RefKind> = Vec::new();
        for i in 0..self.arguments.len()
            invariant
                refs@ =~= Seq::new(i as nat, |j: int| start_arg_ref(self.arguments@, j)),
        {
            let r = IndexedRef { depth: Depth::default(), space: Space::CompVal, index: self.arguments[i] };
            refs.push(RefKind::result(i, r));
        }
        refs
    }
}

impl ReferencedIndices for ComponentStartFunction {
    open spec fn spec_referenced_indices(&self) -> Seq<RefKind> {
        seq![self.spec_func_ref()] + self.spec_arg_refs()
    }

    fn referenced_indices(&self) -> (r: Vec<RefKind>) {
        let mut refs = vec![self.get_func_ref()];
        let mut more = self.get_arg_refs();
        refs.append(&mut more);
        refs
    }
}

} // verus!
