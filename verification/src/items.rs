//! The IR nodes a component is made of: imports, exports, aliases,
//! canonical functions, component and core types and instances.
//!
//! Each node holds, as plain values, what the index-space logic reads of
//! it. Parts that the logic only carries along (primitive value types,
//! abstract heap types, and the limits of tables, memories and globals)
//! are kept as the parser's own values.

use vstd::prelude::*;
use crate::idx_spaces::{IndexSpaceOf, Space};
use crate::kinds::{CompExternKind, CoreExternKind, OuterAliasKind, CoreOuterAliasKind, InstantiationArgKind};
use crate::scopes::{GetScopeKind, ScopeOwnerKind};

verus! {

#[verifier::external_type_specification]
#[verifier::external_body]
pub struct ExPrimitiveValType(wasmparser::PrimitiveValType);

#[verifier::external_type_specification]
#[verifier::external_body]
pub struct ExAbstractHeapType(wasmparser::AbstractHeapType);

#[verifier::external_type_specification]
#[verifier::external_body]
pub struct ExTableType(wasmparser::TableType);

#[verifier::external_type_specification]
#[verifier::external_body]
pub struct ExMemoryType(wasmparser::MemoryType);

#[verifier::external_type_specification]
#[verifier::external_body]
pub struct ExGlobalType(wasmparser::GlobalType);

#[verifier::external_type_specification]
#[verifier::external_body]
pub struct ExTagKind(wasmparser::TagKind);

/// A core type index as the types of a recursion group hold it.
#[derive(Clone, Copy, Debug, PartialEq, Eq, Structural)]
pub enum CoreTypeIndex {
    /// An index into the enclosing core type space.
    Module(u32),
    /// An index into the recursion group itself.
    RecGroup(u32),
    /// A canonical type identity.
    Canonical,
}

/// What a core reference type points at.
#[derive(Clone, Copy, Debug)]
pub enum CoreHeapType {
    /// An abstract heap type, such as `func` or `extern`.
    Abstract { shared: bool, ty: wasmparser::AbstractHeapType },
    /// A concrete type, or any of its subtypes.
    Concrete(CoreTypeIndex),
    /// Exactly a concrete type.
    Exact(CoreTypeIndex),
}

/// A core value type.
#[derive(Clone, Copy, Debug)]
pub enum CoreValType {
    I32,
    I64,
    F32,
    F64,
    V128,
    Ref { nullable: bool, heap: CoreHeapType },
}

/// What a field of a struct or an array holds.
#[derive(Clone, Copy, Debug)]
pub enum CoreStorageType {
    I8,
    I16,
    Val(CoreValType),
}

/// A field of a struct or an array.
#[derive(Clone, Copy, Debug)]
pub struct CoreFieldType {
    pub element_type: CoreStorageType,
    pub mutable: bool,
}

/// The shape of a composite core type.
#[derive(Debug)]
pub enum CompositeInner {
    Func { params: Vec<CoreValType>, results: Vec<CoreValType> },
    Array(CoreFieldType),
    Struct(Vec<CoreFieldType>),
    Cont(CoreTypeIndex),
}

/// A composite core type.
#[derive(Debug)]
pub struct CoreCompositeType {
    pub inner: CompositeInner,
    pub shared: bool,
    pub descriptor_idx: Option<CoreTypeIndex>,
    pub describes_idx: Option<CoreTypeIndex>,
}

/// A core type of a recursion group, with its supertypes.
#[derive(Debug)]
pub struct CoreSubType {
    pub is_final: bool,
    pub supertype_idxs: Vec<CoreTypeIndex>,
    pub composite_type: CoreCompositeType,
}

/// A recursion group of core types (a single type outside of a `rec`).
#[derive(Debug)]
pub struct CoreRecGroup {
    pub explicit: bool,
    pub types: Vec<CoreSubType>,
}

/// The type of an imported or exported core item.
#[derive(Clone, Copy, Debug)]
pub enum CoreTypeRef {
    Func(u32),
    Table(wasmparser::TableType),
    Memory(wasmparser::MemoryType),
    Global(wasmparser::GlobalType),
    Tag { kind: wasmparser::TagKind, func_type_idx: u32 },
    FuncExact(u32),
}

/// A component value type: a primitive, or a reference into the
/// component type space.
#[derive(Debug)]
pub enum ComponentValType {
    Primitive(wasmparser::PrimitiveValType),
    Type(u32),
}

/// The bounds of an imported or exported type.
#[derive(Clone, Copy, Debug, PartialEq, Eq, Structural)]
pub enum TypeBounds {
    Eq(u32),
    SubResource,
}

/// The type an import, an export or a declaration ascribes to its item.
#[derive(Debug)]
pub enum ComponentTypeRef {
    Module(u32),
    Func(u32),
    Value(ComponentValType),
    Type(TypeBounds),
    Instance(u32),
    Component(u32),
}

/// A component import.
#[derive(Debug)]
pub struct ComponentImport {
    pub name: String,
    pub ty: ComponentTypeRef,
}

/// A component export.
#[derive(Debug)]
pub struct ComponentExport {
    pub name: String,
    pub kind: CompExternKind,
    pub index: u32,
    pub ty: Option<ComponentTypeRef>,
}

/// An alias.
#[derive(Clone, Debug)]
pub enum ComponentAlias {
    /// An export of a component instance.
    InstanceExport { kind: CompExternKind, instance_index: u32, name: String },
    /// An export of a core instance.
    CoreInstanceExport { kind: CoreExternKind, instance_index: u32, name: String },
    /// An item of an enclosing component.
    Outer { kind: OuterAliasKind, count: u32, index: u32 },
}

/// An argument of a core module instantiation.
#[derive(Clone, Debug)]
pub struct InstantiationArg {
    pub name: String,
    pub kind: InstantiationArgKind,
    pub index: u32,
}

/// An export of a core instance made from exports.
#[derive(Clone, Debug)]
pub struct Export {
    pub name: String,
    pub kind: CoreExternKind,
    pub index: u32,
}

/// A core instance.
#[derive(Clone, Debug)]
pub enum Instance {
    Instantiate { module_index: u32, args: Vec<InstantiationArg> },
    FromExports(Vec<Export>),
}

/// An argument of a component instantiation.
#[derive(Clone, Debug)]
pub struct ComponentInstantiationArg {
    pub name: String,
    pub kind: CompExternKind,
    pub index: u32,
}

/// A component instance.
#[derive(Debug)]
pub enum ComponentInstance {
    Instantiate { component_index: u32, args: Vec<ComponentInstantiationArg> },
    FromExports(Vec<ComponentExport>),
}

/// The start function of a component.
#[derive(Clone, Debug)]
pub struct ComponentStartFunction {
    pub func_index: u32,
    pub arguments: Vec<u32>,
    pub results: u32,
}

/// A custom section other than the component name section.
#[derive(Clone, Debug)]
pub struct CustomSection {
    pub name: String,
    pub data: Vec<u8>,
}

/// A core module, kept as the bytes of its binary.
#[derive(Clone, Debug)]
pub struct Module {
    pub bytes: Vec<u8>,
}

/// An option of a canonical function.
#[derive(Clone, Copy, Debug, PartialEq, Eq, Structural)]
pub enum CanonicalOption {
    UTF8,
    UTF16,
    CompactUTF16,
    Memory(u32),
    Realloc(u32),
    PostReturn(u32),
    Async,
    Callback(u32),
    CoreType(u32),
    Gc,
}

/// The resource built-ins.
#[derive(Clone, Copy, Debug, PartialEq, Eq, Structural)]
pub enum ResourceOp {
    New,
    Drop,
    Rep,
}

/// The stream and future built-ins that name only their type.
#[derive(Clone, Copy, Debug, PartialEq, Eq, Structural)]
pub enum TypedOp {
    StreamNew,
    StreamForward,
    StreamCancelRead { async_: bool },
    StreamCancelWrite { async_: bool },
    StreamDropReadable,
    StreamDropWritable,
    FutureNew,
    FutureForward,
    FutureCancelRead { async_: bool },
    FutureCancelWrite { async_: bool },
    FutureDropReadable,
    FutureDropWritable,
}

/// The stream and future built-ins that name their type and take options.
#[derive(Clone, Copy, Debug, PartialEq, Eq, Structural)]
pub enum TypedOptionsOp {
    StreamRead,
    StreamWrite,
    FutureRead,
    FutureWrite,
}

/// The built-ins that refer to no index.
#[derive(Clone, Copy, Debug)]
pub enum BuiltinOp {
    ThreadAvailableParallelism,
    BackpressureInc,
    BackpressureDec,
    TaskCancel,
    /// Reads context slot `slot`, of type `ty`.
    ContextGet { ty: CoreValType, slot: u32 },
    /// Writes context slot `slot`, of type `ty`.
    ContextSet { ty: CoreValType, slot: u32 },
    ThreadYield,
    SubtaskDrop,
    SubtaskCancel { async_: bool },
    ErrorContextDrop,
    WaitableSetNew,
    WaitableSetDrop,
    WaitableJoin,
    ThreadIndex,
    ThreadResumeLater,
    ThreadSuspend,
    ThreadSuspendThenResume,
    ThreadYieldThenResume,
    ThreadSuspendThenPromote,
    ThreadYieldThenPromote,
    /// Any other built-in that refers to no index.
    Other,
}

/// A canonical function.
#[derive(Debug)]
pub enum CanonicalFunction {
    Lift { core_func_index: u32, type_index: u32, options: Vec<CanonicalOption> },
    Lower { func_index: u32, options: Vec<CanonicalOption> },
    Resource { op: ResourceOp, resource: u32 },
    ThreadSpawnRef { func_ty_index: u32 },
    ThreadSpawnIndirect { func_ty_index: u32, table_index: u32 },
    ThreadNewIndirect { func_ty_index: u32, table_index: u32 },
    TaskReturn { result: Option<ComponentValType>, options: Vec<CanonicalOption> },
    Typed { op: TypedOp, ty: u32 },
    TypedWithOptions { op: TypedOptionsOp, ty: u32, options: Vec<CanonicalOption> },
    ErrorContextNew { options: Vec<CanonicalOption> },
    ErrorContextDebugMessage { options: Vec<CanonicalOption> },
    WaitableSetWait { memory: u32 },
    WaitableSetPoll { memory: u32 },
    Builtin(BuiltinOp),
}

/// A case of a variant type.
#[derive(Debug)]
pub struct VariantCase {
    pub name: String,
    pub ty: Option<ComponentValType>,
}

/// A component defined type.
#[derive(Debug)]
pub enum ComponentDefinedType {
    Primitive(wasmparser::PrimitiveValType),
    Record(Vec<(String, ComponentValType)>),
    Variant(Vec<VariantCase>),
    List(ComponentValType),
    /// A map from the first value type to the second.
    MapOf(ComponentValType, ComponentValType),
    FixedLengthList(ComponentValType, u32),
    Tuple(Vec<ComponentValType>),
    Flags(Vec<String>),
    Enum(Vec<String>),
    Option(ComponentValType),
    Result { ok: Option<ComponentValType>, err: Option<ComponentValType> },
    Own(u32),
    Borrow(u32),
    Future(Option<ComponentValType>),
    Stream(Option<ComponentValType>),
}

/// A component function type.
#[derive(Debug)]
pub struct ComponentFuncType {
    pub async_: bool,
    pub params: Vec<(String, ComponentValType)>,
    pub result: Option<ComponentValType>,
}

/// A component type.
#[derive(Debug)]
pub enum ComponentType {
    Defined(ComponentDefinedType),
    Func(ComponentFuncType),
    Component(Vec<ComponentTypeDeclaration>),
    Instance(Vec<InstanceTypeDeclaration>),
    Resource { rep: CoreValType, dtor: Option<u32> },
}

/// A declaration inside a component type.
#[derive(Debug)]
pub enum ComponentTypeDeclaration {
    CoreType(CoreType),
    Type(ComponentType),
    Alias(ComponentAlias),
    Export { name: String, ty: ComponentTypeRef },
    Import(ComponentImport),
}

/// A declaration inside an instance type.
#[derive(Debug)]
pub enum InstanceTypeDeclaration {
    CoreType(CoreType),
    Type(ComponentType),
    Alias(ComponentAlias),
    Export { name: String, ty: ComponentTypeRef },
}

/// A core type: a recursion group of core types, or a core module type.
#[derive(Debug)]
pub enum CoreType {
    Rec(CoreRecGroup),
    Module(Vec<ModuleTypeDeclaration>),
}

/// A declaration inside a core module type.
#[derive(Debug)]
pub enum ModuleTypeDeclaration {
    Type(CoreRecGroup),
    Export { name: String, ty: CoreTypeRef },
    OuterAlias { kind: CoreOuterAliasKind, count: u32, index: u32 },
    Import { module: String, name: String, ty: CoreTypeRef },
}

// ---------------------------------------------------------------------
// The index space each node takes a place in.
// ---------------------------------------------------------------------

impl IndexSpaceOf for ComponentTypeRef {
    /// The index space the IDs of the reference are looked up in.
    open spec fn space_of(&self) -> Space {
        match self {
            ComponentTypeRef::Value(_) => Space::CompVal,
            ComponentTypeRef::Instance(_) => Space::CompInst,
            ComponentTypeRef::Component(_) => Space::CompType,
            ComponentTypeRef::Module(_) => Space::CoreModule,
            ComponentTypeRef::Func(_) | ComponentTypeRef::Type(_) => Space::CompType,
        }
    }

    fn index_space_of(&self) -> (r: Space) {
        match self {
            ComponentTypeRef::Value(_) => Space::CompVal,
            ComponentTypeRef::Instance(_) => Space::CompInst,
            ComponentTypeRef::Component(_) => Space::CompType,
            ComponentTypeRef::Module(_) => Space::CoreModule,
            ComponentTypeRef::Func(_) | ComponentTypeRef::Type(_) => Space::CompType,
        }
    }
}

impl IndexSpaceOf for ComponentImport {
    /// The index space of the imported item.
    open spec fn space_of(&self) -> Space {
        match self.ty {
            ComponentTypeRef::Func(_) => Space::CompFunc,
            ComponentTypeRef::Value(_) => Space::CompVal,
            ComponentTypeRef::Type(_) => Space::CompType,
            ComponentTypeRef::Instance(_) => Space::CompInst,
            ComponentTypeRef::Component(_) => Space::Comp,
            ComponentTypeRef::Module(_) => Space::CoreModule,
        }
    }

    fn index_space_of(&self) -> (r: Space) {
        match self.ty {
            ComponentTypeRef::Func(_) => Space::CompFunc,
            ComponentTypeRef::Value(_) => Space::CompVal,
            ComponentTypeRef::Type(_) => Space::CompType,
            ComponentTypeRef::Instance(_) => Space::CompInst,
            ComponentTypeRef::Component(_) => Space::Comp,
            ComponentTypeRef::Module(_) => Space::CoreModule,
        }
    }
}

impl IndexSpaceOf for ComponentExport {
    /// The index space of the exported item; an exported component takes
    /// a place in the component instance space.
    open spec fn space_of(&self) -> Space {
        match self.kind {
            CompExternKind::Module => Space::CoreModule,
            CompExternKind::Func => Space::CompFunc,
            CompExternKind::Value => Space::CompVal,
            CompExternKind::Type => Space::CompType,
            CompExternKind::Instance => Space::CompInst,
            CompExternKind::Component => Space::CompInst,
        }
    }

    fn index_space_of(&self) -> (r: Space) {
        match self.kind {
            CompExternKind::Module => Space::CoreModule,
            CompExternKind::Func => Space::CompFunc,
            CompExternKind::Value => Space::CompVal,
            CompExternKind::Type => Space::CompType,
            CompExternKind::Instance => Space::CompInst,
            CompExternKind::Component => Space::CompInst,
        }
    }
}

impl IndexSpaceOf for Instance {
    open spec fn space_of(&self) -> Space {
        Space::CoreInst
    }

    fn index_space_of(&self) -> (r: Space) {
        Space::CoreInst
    }
}

impl IndexSpaceOf for ComponentInstance {
    open spec fn space_of(&self) -> Space {
        Space::CompInst
    }

    fn index_space_of(&self) -> (r: Space) {
        Space::CompInst
    }
}

impl IndexSpaceOf for ComponentAlias {
    /// The index space of the aliased item.
    open spec fn space_of(&self) -> Space {
        match self {
            ComponentAlias::InstanceExport { kind, .. } => kind.space_of(),
            ComponentAlias::CoreInstanceExport { kind, .. } => kind.space_of(),
            ComponentAlias::Outer { kind, .. } => kind.space_of(),
        }
    }

    fn index_space_of(&self) -> (r: Space) {
        match self {
            ComponentAlias::InstanceExport { kind, .. } => kind.index_space_of(),
            ComponentAlias::CoreInstanceExport { kind, .. } => kind.index_space_of(),
            ComponentAlias::Outer { kind, .. } => kind.index_space_of(),
        }
    }
}

impl IndexSpaceOf for CanonicalFunction {
    /// Lifted functions and thread-spawn built-ins are component
    /// functions; every other canonical function is a core function.
    open spec fn space_of(&self) -> Space {
        match self {
            CanonicalFunction::Lift { .. } => Space::CompFunc,
            CanonicalFunction::ThreadSpawnRef { .. } => Space::CompFunc,
            CanonicalFunction::ThreadSpawnIndirect { .. } => Space::CompFunc,
            _ => Space::CoreFunc,
        }
    }

    fn index_space_of(&self) -> (r: Space) {
        match self {
            CanonicalFunction::Lift { .. } => Space::CompFunc,
            CanonicalFunction::ThreadSpawnRef { .. } => Space::CompFunc,
            CanonicalFunction::ThreadSpawnIndirect { .. } => Space::CompFunc,
            CanonicalFunction::Lower { .. } => Space::CoreFunc,
            CanonicalFunction::Resource { .. } => Space::CoreFunc,
            CanonicalFunction::ThreadNewIndirect { .. } => Space::CoreFunc,
            CanonicalFunction::TaskReturn { .. } => Space::CoreFunc,
            CanonicalFunction::Typed { .. } => Space::CoreFunc,
            CanonicalFunction::TypedWithOptions { .. } => Space::CoreFunc,
            CanonicalFunction::ErrorContextNew { .. } => Space::CoreFunc,
            CanonicalFunction::ErrorContextDebugMessage { .. } => Space::CoreFunc,
            CanonicalFunction::WaitableSetWait { .. } => Space::CoreFunc,
            CanonicalFunction::WaitableSetPoll { .. } => Space::CoreFunc,
            CanonicalFunction::Builtin(_) => Space::CoreFunc,
        }
    }
}

impl IndexSpaceOf for Module {
    open spec fn space_of(&self) -> Space {
        Space::CoreModule
    }

    fn index_space_of(&self) -> (r: Space) {
        Space::CoreModule
    }
}

impl IndexSpaceOf for CoreType {
    open spec fn space_of(&self) -> Space {
        Space::CoreType
    }

    fn index_space_of(&self) -> (r: Space) {
        Space::CoreType
    }
}

impl IndexSpaceOf for ComponentType {
    open spec fn space_of(&self) -> Space {
        Space::CompType
    }

    fn index_space_of(&self) -> (r: Space) {
        Space::CompType
    }
}

impl IndexSpaceOf for ComponentTypeDeclaration {
    open spec fn space_of(&self) -> Space {
        match self {
            ComponentTypeDeclaration::CoreType(_) => Space::CoreType,
            ComponentTypeDeclaration::Type(_) => Space::CompType,
            ComponentTypeDeclaration::Alias(a) => a.space_of(),
            ComponentTypeDeclaration::Export { ty, .. } => ty.space_of(),
            ComponentTypeDeclaration::Import(i) => i.space_of(),
        }
    }

    fn index_space_of(&self) -> (r: Space) {
        match self {
            ComponentTypeDeclaration::CoreType(t) => t.index_space_of(),
            ComponentTypeDeclaration::Type(t) => t.index_space_of(),
            ComponentTypeDeclaration::Alias(a) => a.index_space_of(),
            ComponentTypeDeclaration::Export { ty, .. } => ty.index_space_of(),
            ComponentTypeDeclaration::Import(i) => i.index_space_of(),
        }
    }
}

impl IndexSpaceOf for InstanceTypeDeclaration {
    open spec fn space_of(&self) -> Space {
        match self {
            InstanceTypeDeclaration::CoreType(_) => Space::CoreType,
            InstanceTypeDeclaration::Type(_) => Space::CompType,
            InstanceTypeDeclaration::Alias(a) => a.space_of(),
            InstanceTypeDeclaration::Export { ty, .. } => ty.space_of(),
        }
    }

    fn index_space_of(&self) -> (r: Space) {
        match self {
            InstanceTypeDeclaration::CoreType(t) => t.index_space_of(),
            InstanceTypeDeclaration::Type(t) => t.index_space_of(),
            InstanceTypeDeclaration::Alias(a) => a.index_space_of(),
            InstanceTypeDeclaration::Export { ty, .. } => ty.index_space_of(),
        }
    }
}

impl IndexSpaceOf for ModuleTypeDeclaration {
    /// Every declaration of a core module type takes a place in the core
    /// type space of the module type's scope.
    open spec fn space_of(&self) -> Space {
        Space::CoreType
    }

    fn index_space_of(&self) -> (r: Space) {
        match self {
            ModuleTypeDeclaration::Type(_) => Space::CoreType,
            ModuleTypeDeclaration::Export { .. } => Space::CoreType,
            ModuleTypeDeclaration::OuterAlias { kind, .. } => kind.index_space_of(),
            ModuleTypeDeclaration::Import { .. } => Space::CoreType,
        }
    }
}

impl IndexSpaceOf for ComponentStartFunction {
    open spec fn space_of(&self) -> Space {
        Space::NA
    }

    fn index_space_of(&self) -> (r: Space) {
        Space::NA
    }
}

impl IndexSpaceOf for CustomSection {
    open spec fn space_of(&self) -> Space {
        Space::NA
    }

    fn index_space_of(&self) -> (r: Space) {
        Space::NA
    }
}

// ---------------------------------------------------------------------
// The kind of scope each node owns.
// ---------------------------------------------------------------------

impl GetScopeKind for CoreType {
    open spec fn spec_scope_kind(&self) -> ScopeOwnerKind {
        match self {
            CoreType::Module(_) => ScopeOwnerKind::CoreTypeModule,
            CoreType::Rec(_) => ScopeOwnerKind::Unregistered,
        }
    }

    fn scope_kind(&self) -> (r: ScopeOwnerKind) {
        match self {
            CoreType::Module(_) => ScopeOwnerKind::CoreTypeModule,
            CoreType::Rec(_) => ScopeOwnerKind::Unregistered,
        }
    }
}

impl GetScopeKind for ComponentType {
    open spec fn spec_scope_kind(&self) -> ScopeOwnerKind {
        match self {
            ComponentType::Component(_) => ScopeOwnerKind::ComponentTypeComponent,
            ComponentType::Instance(_) => ScopeOwnerKind::ComponentTypeInstance,
            _ => ScopeOwnerKind::Unregistered,
        }
    }

    fn scope_kind(&self) -> (r: ScopeOwnerKind) {
        match self {
            ComponentType::Component(_) => ScopeOwnerKind::ComponentTypeComponent,
            ComponentType::Instance(_) => ScopeOwnerKind::ComponentTypeInstance,
            ComponentType::Defined(_) => ScopeOwnerKind::Unregistered,
            ComponentType::Func(_) => ScopeOwnerKind::Unregistered,
            ComponentType::Resource { .. } => ScopeOwnerKind::Unregistered,
        }
    }
}

} // verus!
