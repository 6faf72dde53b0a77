//! References from IR nodes into index spaces.

use vstd::prelude::*;
use crate::idx_spaces::Space;

verus! {

/// How far out a reference reaches: `0` is the current scope, `n` the
/// `n`-th enclosing scope.
#[derive(Clone, Copy, Debug, PartialEq, Eq, Hash, Structural)]
pub struct Depth(pub(crate) usize);

impl Depth {
    /// The number of scopes out.
    pub closed spec fn level(self) -> usize {
        self.0
    }

    /// The depth `n` scopes out.
    pub closed spec fn at_level(n: usize) -> Depth {
        Depth(n)
    }

    /// A depth is determined by its level.
    pub broadcast proof fn lemma_at_level(n: usize)
        ensures
            #[trigger] Depth::at_level(n).level() == n,
    {
    }

    /// Two depths of the same level are the same.
    pub proof fn lemma_level_determines(a: Depth, b: Depth)
        requires
            a.level() == b.level(),
        ensures
            a == b,
    {
    }

    /// The current scope.
    pub fn default() -> (r: Self)
        ensures
            r == Depth::at_level(0),
            r.level() == 0,
    {
        Depth(0)
    }

    /// The number of scopes out.
    pub fn val(&self) -> (r: usize)
        ensures
            r == self.level(),
    {
        self.0
    }

    /// Whether this is the current scope.
    pub fn is_curr(&self) -> (r: bool)
        ensures
            r == (self.level() == 0),
    {
        self.0 == 0
    }

    /// One scope further out.
    pub fn outer(self) -> (r: Self)
        requires
            self.level() < usize::MAX,
        ensures
            r.level() == self.level() + 1,
    {
        let mut d = self;
        d.0 = d.0 + 1;
        d
    }

    /// `depth` scopes further out.
    pub fn outer_at(self, depth: u32) -> (r: Self)
        requires
            self.level() + depth <= usize::MAX,
        ensures
            r.level() == self.level() + depth,
            r == Depth::at_level((self.level() + depth) as usize),
    {
        let mut d = self;
        d.0 = d.0 + depth as usize;
        d
    }

    /// The enclosing scope.
    pub fn parent() -> (r: Self)
        ensures
            r == Depth::at_level(1),
            r.level() == 1,
    {
        Depth(1)
    }
}

/// A raw reference into an index space: the scope to resolve it in, the
/// index space, and the index within that space.
#[derive(Clone, Copy, Debug, PartialEq, Eq, Hash, Structural)]
pub struct IndexedRef {
    /// The depth of the scope to look this up in.
    pub depth: Depth,
    /// The index space this reference points into.
    pub space: Space,
    /// The index within that space.
    pub index: u32,
}

/// The semantic role of a referenced index.
#[derive(Clone, Copy, Debug, PartialEq, Eq, Structural)]
pub enum RefRole {
    Comp,
    Module,
    Inst,
    Func,
    Type,
    Val,
    Mem,
    Table,
    Global,
    Tag,
    /// A declaration at the given position.
    Decl(usize),
    /// A parameter at the given index.
    Param(usize),
    /// A result at the given index.
    Result(usize),
    /// An argument at the given index.
    Arg(usize),
    /// A `descriptor` reference.
    Descriptor,
    /// A `describes` reference.
    Describes,
}

/// The role a plain reference into `space` has.
pub open spec fn spec_role_of(space: Space) -> RefRole {
    match space {
        Space::Comp => RefRole::Comp,
        Space::CoreModule => RefRole::Module,
        Space::CompInst | Space::CoreInst => RefRole::Inst,
        Space::CompFunc | Space::CoreFunc => RefRole::Func,
        Space::CompType | Space::CoreType => RefRole::Type,
        Space::CompVal => RefRole::Val,
        Space::CoreMemory => RefRole::Mem,
        Space::CoreTable => RefRole::Table,
        Space::CoreGlobal => RefRole::Global,
        Space::CoreTag => RefRole::Tag,
        Space::NA => RefRole::Tag,
    }
}

impl RefRole {
    /// The role a plain reference into `space` has.
    pub fn role_of(space: &Space) -> (r: Self)
        requires
            *space != Space::NA,
        ensures
            r == spec_role_of(*space),
    {
        match space {
            Space::Comp => RefRole::Comp,
            Space::CoreModule => RefRole::Module,
            Space::CompInst | Space::CoreInst => RefRole::Inst,
            Space::CompFunc | Space::CoreFunc => RefRole::Func,
            Space::CompType | Space::CoreType => RefRole::Type,
            Space::CompVal => RefRole::Val,
            Space::CoreMemory => RefRole::Mem,
            Space::CoreTable => RefRole::Table,
            Space::CoreGlobal => RefRole::Global,
            Space::CoreTag => RefRole::Tag,
            Space::NA => {
                proof {
                    assert(false);
                }
                RefRole::Tag
            },
        }
    }
}

/// A referenced index with its semantic role.
#[derive(Clone, Copy, Debug, PartialEq, Eq, Structural)]
pub struct RefKind {
    pub role: RefRole,
    pub ref_: IndexedRef,
}

impl RefKind {
    /// A plain reference, whose role follows from its index space.
    pub fn new(ref_: IndexedRef) -> (r: Self)
        requires
            ref_.space != Space::NA,
        ensures
            r == (RefKind { role: spec_role_of(ref_.space), ref_ }),
    {
        let role = RefRole::role_of(&ref_.space);
        Self { role, ref_ }
    }

    /// A reference made by the declaration at position `idx`.
    pub fn decl(idx: usize, ref_: IndexedRef) -> (r: Self)
        ensures
            r == (RefKind { role: RefRole::Decl(idx), ref_ }),
    {
        Self { role: RefRole::Decl(idx), ref_ }
    }

    /// A reference made by the parameter at position `idx`.
    pub fn param(idx: usize, ref_: IndexedRef) -> (r: Self)
        ensures
            r == (RefKind { role: RefRole::Param(idx), ref_ }),
    {
        Self { role: RefRole::Param(idx), ref_ }
    }

    /// A reference made by the result at position `idx`.
    pub fn result(idx: usize, ref_: IndexedRef) -> (r: Self)
        ensures
            r == (RefKind { role: RefRole::Result(idx), ref_ }),
    {
        Self { role: RefRole::Result(idx), ref_ }
    }

    /// A `descriptor` reference.
    pub fn descriptor(ref_: IndexedRef) -> (r: Self)
        ensures
            r == (RefKind { role: RefRole::Descriptor, ref_ }),
    {
        Self { role: RefRole::Descriptor, ref_ }
    }

    /// A `describes` reference.
    pub fn describes(ref_: IndexedRef) -> (r: Self)
        ensures
            r == (RefKind { role: RefRole::Describes, ref_ }),
    {
        Self { role: RefRole::Describes, ref_ }
    }
}

/// Extracts all referenced indices of a node, with their roles.
/// References held by nested scopes of the node are not included.
pub trait ReferencedIndices {
    spec fn spec_referenced_indices(&self) -> Seq<RefKind>;

    /// The references can be read: every core type index in them is one of the enclosing core type space.
    open spec fn refs_readable(&self) -> bool {
        true
    }

    fn referenced_indices(&self) -> (r: Vec<RefKind>)
        requires
            self.refs_readable(),
        ensures
            r@ == self.spec_referenced_indices(),
    ;
}

/// Extracts references to components from a node.
pub trait GetCompRefs {
    spec fn spec_comp_refs(&self) -> Seq<RefKind>;

    fn get_comp_refs(&self) -> (r: Vec<RefKind>)
        ensures
            r@ == self.spec_comp_refs(),
    ;
}

/// Extracts references to modules from a node.
pub trait GetModuleRefs {
    spec fn spec_module_refs(&self) -> Seq<RefKind>;

    fn get_module_refs(&self) -> (r: Vec<RefKind>)
        ensures
            r@ == self.spec_module_refs(),
    ;
}

/// Extracts references to component or core types from a node.
pub trait GetTypeRefs {
    spec fn spec_type_refs(&self) -> Seq<RefKind>;

    /// The node's type references can be read: every core type index in
    /// it is one of the enclosing type space.
    open spec fn type_refs_readable(&self) -> bool {
        true
    }

    fn get_type_refs(&self) -> (r: Vec<RefKind>)
        requires
            self.type_refs_readable(),
        ensures
            r@ == self.spec_type_refs(),
    ;
}

/// Extracts references to component or core functions from a node.
pub trait GetFuncRefs {
    spec fn spec_func_refs(&self) -> Seq<RefKind>;

    fn get_func_refs(&self) -> (r: Vec<RefKind>)
        ensures
            r@ == self.spec_func_refs(),
    ;
}

/// Extracts the single function reference of a node.
pub trait GetFuncRef {
    spec fn spec_func_ref(&self) -> RefKind;

    fn get_func_ref(&self) -> (r: RefKind)
        ensures
            r == self.spec_func_ref(),
    ;
}

/// Extracts references to memories from a node.
pub trait GetMemRefs {
    spec fn spec_mem_refs(&self) -> Seq<RefKind>;

    fn get_mem_refs(&self) -> (r: Vec<RefKind>)
        ensures
            r@ == self.spec_mem_refs(),
    ;
}

/// Extracts references to tables from a node.
pub trait GetTableRefs {
    spec fn spec_tbl_refs(&self) -> Seq<RefKind>;

    fn get_tbl_refs(&self) -> (r: Vec<RefKind>)
        ensures
            r@ == self.spec_tbl_refs(),
    ;
}

/// Extracts references to any item from a node.
pub trait GetItemRefs {
    spec fn spec_item_refs(&self) -> Seq<RefKind>;

    fn get_item_refs(&self) -> (r: Vec<RefKind>)
        ensures
            r@ == self.spec_item_refs(),
    ;
}

/// Extracts the single item reference of a node.
pub trait GetItemRef {
    spec fn spec_item_ref(&self) -> RefKind;

    fn get_item_ref(&self) -> (r: RefKind)
        ensures
            r == self.spec_item_ref(),
    ;
}

/// Extracts references made by parameters of a node.
pub trait GetParamRefs {
    spec fn spec_param_refs(&self) -> Seq<RefKind>;

    /// The parameters' references can be read.
    open spec fn param_refs_readable(&self) -> bool {
        true
    }

    fn get_param_refs(&self) -> (r: Vec<RefKind>)
        requires
            self.param_refs_readable(),
        ensures
            r@ == self.spec_param_refs(),
    ;
}

/// Extracts references made by results of a node.
pub trait GetResultRefs {
    spec fn spec_result_refs(&self) -> Seq<RefKind>;

    /// The results' references can be read.
    open spec fn result_refs_readable(&self) -> bool {
        true
    }

    fn get_result_refs(&self) -> (r: Vec<RefKind>)
        requires
            self.result_refs_readable(),
        ensures
            r@ == self.spec_result_refs(),
    ;
}

/// Extracts references made by arguments of a node.
pub trait GetArgRefs {
    spec fn spec_arg_refs(&self) -> Seq<RefKind>;

    fn get_arg_refs(&self) -> (r: Vec<RefKind>)
        ensures
            r@ == self.spec_arg_refs(),
    ;
}

/// Extracts `descriptor` references from a node.
pub trait GetDescriptorRefs {
    fn get_descriptor_refs(&self) -> Vec<RefKind>;
}

/// Extracts `describes` references from a node.
pub trait GetDescribesRefs {
    fn get_describes_refs(&self) -> Vec<RefKind>;
}

} // verus!
