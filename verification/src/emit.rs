//! Writing the sections of an encoded component as a binary, with
//! `wasm_encoder`: each item is converted, value for value, into the
//! section builder that `wasm_encoder` offers for it.

use vstd::prelude::*;
use crate::encode::EncodedItem;
use crate::plain::items_plain;
use crate::items::{
    ComponentValType, ComponentTypeRef, TypeBounds, CanonicalOption, ComponentImport, ComponentExport, ComponentAlias,
    Instance, ComponentInstance, ComponentStartFunction, CustomSection, CanonicalFunction, ResourceOp, TypedOp,
    TypedOptionsOp, BuiltinOp, CoreTypeIndex, CoreHeapType, CoreValType, CoreStorageType, CompositeInner, CoreSubType,
    CoreType, CoreRecGroup, CoreTypeRef, ModuleTypeDeclaration, ComponentType, ComponentDefinedType,
    ComponentTypeDeclaration, InstanceTypeDeclaration, ComponentFuncType,
};
use crate::kinds::{CompExternKind, CoreExternKind, OuterAliasKind};
use wasm_encoder::{
    ComponentValType as EncValType,
    ComponentTypeRef as EncTypeRef,
    CanonicalOption as EncCanonOption,
    ComponentExportKind as EncExportKind,
    ExportKind as EncCoreKind,
    ComponentOuterAliasKind as EncOuterKind,
    ValType as EncCoreVal,
    HeapType as EncHeap,
    StorageType as EncStorage,
    SubType as EncSubType,
    CompositeInnerType as EncInner,
    ComponentType as EncComponentType,
    InstanceType as EncInstanceType,
    ModuleType as EncModuleType,
    EntityType as EncEntity,
    ComponentDefinedTypeEncoder as EncDefined,
    ComponentTypeEncoder as EncTypeEncoder,
    CanonicalFunctionSection as EncCanonSection,
    Alias as EncAlias,
    ComponentCoreTypeEncoder as EncCoreTypeEncoder,
    CoreTypeEncoder as EncCoreEncoder,
};

verus! {

#[verifier::external_type_specification]
#[verifier::external_body]
pub struct ExEncValType(EncValType);

#[verifier::external_type_specification]
#[verifier::external_body]
pub struct ExEncTypeRef(EncTypeRef);

#[verifier::external_type_specification]
#[verifier::external_body]
pub struct ExEncCanonOption(EncCanonOption);

#[verifier::external_type_specification]
#[verifier::external_body]
pub struct ExEncExportKind(EncExportKind);

#[verifier::external_type_specification]
#[verifier::external_body]
pub struct ExEncCoreKind(EncCoreKind);

#[verifier::external_type_specification]
#[verifier::external_body]
pub struct ExEncOuterKind(EncOuterKind);

#[verifier::external_type_specification]
#[verifier::external_body]
pub struct ExEncCoreVal(EncCoreVal);

#[verifier::external_type_specification]
#[verifier::external_body]
pub struct ExEncHeap(EncHeap);

#[verifier::external_type_specification]
#[verifier::external_body]
pub struct ExEncStorage(EncStorage);

#[verifier::external_type_specification]
#[verifier::external_body]
pub struct ExEncSubType(EncSubType);

#[verifier::external_type_specification]
#[verifier::external_body]
pub struct ExEncInner(EncInner);

#[verifier::external_type_specification]
#[verifier::external_body]
pub struct ExEncComponentType(EncComponentType);

#[verifier::external_type_specification]
#[verifier::external_body]
pub struct ExEncInstanceType(EncInstanceType);

#[verifier::external_type_specification]
#[verifier::external_body]
pub struct ExEncModuleType(EncModuleType);

#[verifier::external_type_specification]
#[verifier::external_body]
pub struct ExEncEntity(EncEntity);

#[verifier::external_type_specification]
#[verifier::external_body]
pub struct ExEncDefined<'a>(EncDefined<'a>);

#[verifier::external_type_specification]
#[verifier::external_body]
pub struct ExEncTypeEncoder<'a>(EncTypeEncoder<'a>);

#[verifier::external_type_specification]
#[verifier::external_body]
pub struct ExEncCanonSection(EncCanonSection);

#[verifier::external_type_specification]
#[verifier::external_body]
pub struct ExEncAlias<'a>(EncAlias<'a>);

#[verifier::external_type_specification]
#[verifier::external_body]
pub struct ExEncCoreTypeEncoder<'a>(EncCoreTypeEncoder<'a>);

#[verifier::external_type_specification]
#[verifier::external_body]
pub struct ExEncCoreEncoder<'a>(EncCoreEncoder<'a>);

/// What `wasm_encoder` writes for the sections `s`, in order, after the
/// component header; `None` where it refuses a table, global or tag type.
pub uninterp spec fn component_bytes(s: Seq<EncodedItem<'_>>) -> Option<Seq<u8>>;

/// Writes the component made of the sections `s`, in order
/// (`wasm_encoder::Component::HEADER`, then each section as
/// `Component::section` writes it). Claimed: the result depends on the
/// sections alone.
#[verifier::external_body]
pub(crate) fn emit(s: &Vec<EncodedItem<'_>>) -> (r: Option<Vec<u8>>)
    requires
        items_plain(s@),
    ensures
        match r {
            Some(b) => component_bytes(s@) == Some(b@),
            None => component_bytes(s@) is None,
        },
{
    let mut out = wasm_encoder::Component::HEADER.to_vec();
    for e in s.iter() {
        out.extend(item_bytes(e)?);
    }
    Some(out)
}

/// Writes a section whole: its id, then its contents (`ComponentSection::id`,
/// `Encode::encode`).
#[verifier::external_body]
fn section_bytes<S: wasm_encoder::ComponentSection>(sec: &S) -> Vec<u8> {
    let mut v = vec![wasm_encoder::ComponentSection::id(sec)];
    wasm_encoder::Encode::encode(sec, &mut v);
    v
}

/// Writes one section (`RawSection` for a module and a nested component,
/// `CustomSection` for a custom section).
#[verifier::external_body]
fn item_bytes(e: &EncodedItem<'_>) -> Option<Vec<u8>> {
    match e {
        EncodedItem::Module(m) => Some(section_bytes(&wasm_encoder::RawSection {
            id: wasm_encoder::ComponentSectionId::CoreModule as u8,
            data: &m.bytes,
        })),
        EncodedItem::Component(v) => Some(section_bytes(&wasm_encoder::RawSection {
            id: wasm_encoder::ComponentSectionId::Component as u8,
            data: &emit(v)?,
        })),
        EncodedItem::Custom(x) => Some(custom_bytes(x)),
        other => item_bytes_rest(other),
    }
}

/// Writes a custom section (`wasm_encoder::CustomSection`).
#[verifier::external_body]
fn custom_bytes(x: &CustomSection) -> Vec<u8> {
    section_bytes(&wasm_encoder::CustomSection { name: x.name.as_str().into(), data: x.data.as_slice().into() })
}

/// Writes one section of the other kinds.
#[verifier::external_body]
fn item_bytes_rest(e: &EncodedItem<'_>) -> Option<Vec<u8>> {
    match e {
        EncodedItem::Import(x) => Some(import_bytes(x)),
        EncodedItem::Export(x) => Some(export_bytes(x)),
        EncodedItem::Alias(x) => Some(alias_bytes(x)),
        EncodedItem::CoreInstance(x) => Some(core_instance_bytes(x)),
        EncodedItem::ComponentInstance(x) => Some(comp_instance_bytes(x)),
        EncodedItem::Canon(x) => Some(canon_bytes(x)),
        EncodedItem::Start(x) => Some(start_bytes(x)),
        EncodedItem::CoreType(x) => core_type_bytes(x),
        EncodedItem::ComponentType(x) => comp_type_bytes(x),
        EncodedItem::FixedType(x) => comp_type_bytes(x),
        _ => None,
    }
}

/// Converts a value type (`From<wasmparser::PrimitiveValType>`).
#[verifier::external_body]
fn enc_val(v: &ComponentValType) -> EncValType {
    match v {
        ComponentValType::Primitive(p) => EncValType::Primitive((*p).into()),
        ComponentValType::Type(i) => EncValType::Type(*i),
    }
}

/// Converts an optional value type.
#[verifier::external_body]
fn enc_opt_val(v: &Option<ComponentValType>) -> Option<EncValType> {
    match v {
        Some(t) => Some(enc_val(t)),
        None => None,
    }
}

/// Converts a type reference.
#[verifier::external_body]
fn enc_type_ref(t: &ComponentTypeRef) -> EncTypeRef {
    match t {
        ComponentTypeRef::Module(i) => EncTypeRef::Module(*i),
        ComponentTypeRef::Func(i) => EncTypeRef::Func(*i),
        ComponentTypeRef::Value(v) => EncTypeRef::Value(enc_val(v)),
        ComponentTypeRef::Type(TypeBounds::Eq(i)) => EncTypeRef::Type(wasm_encoder::TypeBounds::Eq(*i)),
        ComponentTypeRef::Type(TypeBounds::SubResource) => EncTypeRef::Type(wasm_encoder::TypeBounds::SubResource),
        ComponentTypeRef::Instance(i) => EncTypeRef::Instance(*i),
        ComponentTypeRef::Component(i) => EncTypeRef::Component(*i),
    }
}

/// Converts a component item kind.
#[verifier::external_body]
fn enc_kind(k: CompExternKind) -> EncExportKind {
    match k {
        CompExternKind::Module => EncExportKind::Module,
        CompExternKind::Func => EncExportKind::Func,
        CompExternKind::Value => EncExportKind::Value,
        CompExternKind::Type => EncExportKind::Type,
        CompExternKind::Instance => EncExportKind::Instance,
        CompExternKind::Component => EncExportKind::Component,
    }
}

/// Converts a core item kind; an exact function is written as a function,
/// as `wasm_encoder::reencode::utils::export_kind` writes it.
#[verifier::external_body]
fn enc_core_kind(k: CoreExternKind) -> EncCoreKind {
    match k {
        CoreExternKind::Func => EncCoreKind::Func,
        CoreExternKind::Table => EncCoreKind::Table,
        CoreExternKind::Memory => EncCoreKind::Memory,
        CoreExternKind::Global => EncCoreKind::Global,
        CoreExternKind::Tag => EncCoreKind::Tag,
        CoreExternKind::FuncExact => EncCoreKind::Func,
    }
}

/// Writes an import section of one import (`ComponentImportSection::import`).
#[verifier::external_body]
fn import_bytes(x: &ComponentImport) -> Vec<u8> {
    let mut sec = wasm_encoder::ComponentImportSection::new();
    sec.import(x.name.as_str(), enc_type_ref(&x.ty));
    section_bytes(&sec)
}

/// Writes an export section of one export (`ComponentExportSection::export`).
#[verifier::external_body]
fn export_bytes(x: &ComponentExport) -> Vec<u8> {
    let mut sec = wasm_encoder::ComponentExportSection::new();
    let ty = x.ty.as_ref().map(enc_type_ref);
    sec.export(x.name.as_str(), enc_kind(x.kind), x.index, ty);
    section_bytes(&sec)
}

/// Converts an alias (`wasm_encoder::Alias`).
#[verifier::external_body]
fn enc_alias(a: &ComponentAlias) -> EncAlias<'_> {
    match a {
        ComponentAlias::InstanceExport { kind, instance_index, name } =>
            EncAlias::InstanceExport { instance: *instance_index, kind: enc_kind(*kind), name: name.as_str() },
        ComponentAlias::CoreInstanceExport { kind, instance_index, name } =>
            EncAlias::CoreInstanceExport { instance: *instance_index, kind: enc_core_kind(*kind), name: name.as_str() },
        ComponentAlias::Outer { kind, count, index } => EncAlias::Outer { kind: enc_outer_kind(*kind), count: *count, index: *index },
    }
}

/// Converts an outer alias kind.
#[verifier::external_body]
fn enc_outer_kind(k: OuterAliasKind) -> EncOuterKind {
    match k {
        OuterAliasKind::CoreModule => EncOuterKind::CoreModule,
        OuterAliasKind::CoreType => EncOuterKind::CoreType,
        OuterAliasKind::Type => EncOuterKind::Type,
        OuterAliasKind::Component => EncOuterKind::Component,
    }
}

/// Writes an alias section of one alias (`ComponentAliasSection::alias`).
#[verifier::external_body]
fn alias_bytes(x: &ComponentAlias) -> Vec<u8> {
    let mut sec = wasm_encoder::ComponentAliasSection::new();
    sec.alias(enc_alias(x));
    section_bytes(&sec)
}

/// Writes a core instance section of one instance
/// (`InstanceSection::instantiate`, `export_items`).
#[verifier::external_body]
fn core_instance_bytes(x: &Instance) -> Vec<u8> {
    let mut sec = wasm_encoder::InstanceSection::new();
    match x {
        Instance::Instantiate { module_index, args } => sec.instantiate(
            *module_index,
            args.iter().map(|a| (a.name.as_str(), wasm_encoder::ModuleArg::Instance(a.index))),
        ),
        Instance::FromExports(es) => sec.export_items(es.iter().map(|e| (e.name.as_str(), enc_core_kind(e.kind), e.index))),
    };
    section_bytes(&sec)
}

/// Writes a component instance section of one instance
/// (`ComponentInstanceSection::instantiate`, `export_items`).
#[verifier::external_body]
fn comp_instance_bytes(x: &ComponentInstance) -> Vec<u8> {
    let mut sec = wasm_encoder::ComponentInstanceSection::new();
    match x {
        ComponentInstance::Instantiate { component_index, args } =>
            sec.instantiate(*component_index, args.iter().map(|a| (a.name.as_str(), enc_kind(a.kind), a.index))),
        ComponentInstance::FromExports(es) => sec.export_items(es.iter().map(|e| (e.name.as_str(), enc_kind(e.kind), e.index))),
    };
    section_bytes(&sec)
}

/// Writes a start section (`ComponentStartSection`).
#[verifier::external_body]
fn start_bytes(x: &ComponentStartFunction) -> Vec<u8> {
    section_bytes(&wasm_encoder::ComponentStartSection {
        function_index: x.func_index,
        args: x.arguments.as_slice(),
        results: x.results,
    })
}

/// Converts a canonical option.
#[verifier::external_body]
fn enc_option(o: CanonicalOption) -> EncCanonOption {
    match o {
        CanonicalOption::UTF8 => EncCanonOption::UTF8,
        CanonicalOption::UTF16 => EncCanonOption::UTF16,
        CanonicalOption::CompactUTF16 => EncCanonOption::CompactUTF16,
        CanonicalOption::Memory(i) => EncCanonOption::Memory(i),
        CanonicalOption::Realloc(i) => EncCanonOption::Realloc(i),
        CanonicalOption::PostReturn(i) => EncCanonOption::PostReturn(i),
        CanonicalOption::Async => EncCanonOption::Async,
        CanonicalOption::Callback(i) => EncCanonOption::Callback(i),
        CanonicalOption::CoreType(i) => EncCanonOption::CoreType(i),
        CanonicalOption::Gc => EncCanonOption::Gc,
    }
}

/// Converts canonical options.
#[verifier::external_body]
fn enc_options(os: &Vec<CanonicalOption>) -> Vec<EncCanonOption> {
    os.iter().map(|o| enc_option(*o)).collect()
}

/// Writes a canonical function section of one function
/// (`CanonicalFunctionSection`: `lift`, `lower`, `task_return`, and the
/// built-ins below).
#[verifier::external_body]
fn canon_bytes(c: &CanonicalFunction) -> Vec<u8> {
    let mut sec = EncCanonSection::new();
    match c {
        CanonicalFunction::Lift { core_func_index, type_index, options } =>
            sec.lift(*core_func_index, *type_index, enc_options(options)),
        CanonicalFunction::Lower { func_index, options } => sec.lower(*func_index, enc_options(options)),
        CanonicalFunction::TaskReturn { result, options } => sec.task_return(enc_opt_val(result), enc_options(options)),
        other => canon_other(&mut sec, other),
    };
    section_bytes(&sec)
}

/// Adds a resource, thread or error-context built-in
/// (`CanonicalFunctionSection::resource_new`, ...).
#[verifier::external_body]
fn canon_other<'s>(sec: &'s mut EncCanonSection, c: &CanonicalFunction) -> &'s mut EncCanonSection {
    match c {
        CanonicalFunction::Resource { op: ResourceOp::New, resource } => sec.resource_new(*resource),
        CanonicalFunction::Resource { op: ResourceOp::Drop, resource } => sec.resource_drop(*resource),
        CanonicalFunction::Resource { op: ResourceOp::Rep, resource } => sec.resource_rep(*resource),
        CanonicalFunction::ThreadSpawnRef { func_ty_index } => sec.thread_spawn_ref(*func_ty_index),
        CanonicalFunction::ThreadSpawnIndirect { func_ty_index, table_index } => sec.thread_spawn_indirect(*func_ty_index, *table_index),
        CanonicalFunction::ThreadNewIndirect { func_ty_index, table_index } => sec.thread_new_indirect(*func_ty_index, *table_index),
        CanonicalFunction::ErrorContextNew { options } => sec.error_context_new(enc_options(options)),
        CanonicalFunction::ErrorContextDebugMessage { options } => sec.error_context_debug_message(enc_options(options)),
        CanonicalFunction::WaitableSetWait { memory } => sec.waitable_set_wait(*memory),
        CanonicalFunction::WaitableSetPoll { memory } => sec.waitable_set_poll(*memory),
        other => canon_typed(sec, other),
    }
}

/// Adds a stream or future built-in (`CanonicalFunctionSection::stream_new`,
/// ...).
#[verifier::external_body]
fn canon_typed<'s>(sec: &'s mut EncCanonSection, c: &CanonicalFunction) -> &'s mut EncCanonSection {
    match c {
        CanonicalFunction::Typed { op, ty } => canon_typed_op(sec, *op, *ty),
        CanonicalFunction::TypedWithOptions { op: TypedOptionsOp::StreamRead, ty, options } => sec.stream_read(*ty, enc_options(options)),
        CanonicalFunction::TypedWithOptions { op: TypedOptionsOp::StreamWrite, ty, options } => sec.stream_write(*ty, enc_options(options)),
        CanonicalFunction::TypedWithOptions { op: TypedOptionsOp::FutureRead, ty, options } => sec.future_read(*ty, enc_options(options)),
        CanonicalFunction::TypedWithOptions { op: TypedOptionsOp::FutureWrite, ty, options } => sec.future_write(*ty, enc_options(options)),
        CanonicalFunction::Builtin(b) => canon_builtin(sec, *b),
        _ => sec,
    }
}

/// Adds a stream or future built-in that names only its type.
#[verifier::external_body]
fn canon_typed_op(sec: &mut EncCanonSection, op: TypedOp, ty: u32) -> &mut EncCanonSection {
    match op {
        TypedOp::StreamNew => sec.stream_new(ty),
        TypedOp::StreamForward => sec.stream_forward(ty),
        TypedOp::StreamCancelRead { async_ } => sec.stream_cancel_read(ty, async_),
        TypedOp::StreamCancelWrite { async_ } => sec.stream_cancel_write(ty, async_),
        TypedOp::StreamDropReadable => sec.stream_drop_readable(ty),
        TypedOp::StreamDropWritable => sec.stream_drop_writable(ty),
        TypedOp::FutureNew => sec.future_new(ty),
        TypedOp::FutureForward => sec.future_forward(ty),
        TypedOp::FutureCancelRead { async_ } => sec.future_cancel_read(ty, async_),
        TypedOp::FutureCancelWrite { async_ } => sec.future_cancel_write(ty, async_),
        TypedOp::FutureDropReadable => sec.future_drop_readable(ty),
        TypedOp::FutureDropWritable => sec.future_drop_writable(ty),
    }
}

/// Adds a task, context, subtask, waitable or backpressure built-in.
#[verifier::external_body]
fn canon_builtin(sec: &mut EncCanonSection, b: BuiltinOp) -> &mut EncCanonSection {
    match b {
        BuiltinOp::ThreadAvailableParallelism => sec.thread_available_parallelism(),
        BuiltinOp::BackpressureInc => sec.backpressure_inc(),
        BuiltinOp::BackpressureDec => sec.backpressure_dec(),
        BuiltinOp::TaskCancel => sec.task_cancel(),
        BuiltinOp::ContextGet { ty, slot } => sec.context_get(enc_core_val(ty), slot),
        BuiltinOp::ContextSet { ty, slot } => sec.context_set(enc_core_val(ty), slot),
        BuiltinOp::SubtaskDrop => sec.subtask_drop(),
        BuiltinOp::SubtaskCancel { async_ } => sec.subtask_cancel(async_),
        BuiltinOp::ErrorContextDrop => sec.error_context_drop(),
        BuiltinOp::WaitableSetNew => sec.waitable_set_new(),
        BuiltinOp::WaitableSetDrop => sec.waitable_set_drop(),
        BuiltinOp::WaitableJoin => sec.waitable_join(),
        other => canon_thread_builtin(sec, other),
    }
}

/// Adds a thread built-in.
#[verifier::external_body]
fn canon_thread_builtin(sec: &mut EncCanonSection, b: BuiltinOp) -> &mut EncCanonSection {
    match b {
        BuiltinOp::ThreadYield => sec.thread_yield(),
        BuiltinOp::ThreadIndex => sec.thread_index(),
        BuiltinOp::ThreadResumeLater => sec.thread_resume_later(),
        BuiltinOp::ThreadSuspend => sec.thread_suspend(),
        BuiltinOp::ThreadSuspendThenResume => sec.thread_suspend_then_resume(),
        BuiltinOp::ThreadYieldThenResume => sec.thread_yield_then_resume(),
        BuiltinOp::ThreadSuspendThenPromote => sec.thread_suspend_then_promote(),
        BuiltinOp::ThreadYieldThenPromote => sec.thread_yield_then_promote(),
        _ => sec,
    }
}

/// Converts a core type index written as a module index.
#[verifier::external_body]
fn enc_idx(i: CoreTypeIndex) -> u32
    requires
        i is Module,
{
    match i {
        CoreTypeIndex::Module(i) => i,
        CoreTypeIndex::RecGroup(i) => i,
        CoreTypeIndex::Canonical => 0,
    }
}

/// Converts a heap type (`From<wasmparser::AbstractHeapType>`).
#[verifier::external_body]
fn enc_heap(h: CoreHeapType) -> EncHeap {
    match h {
        CoreHeapType::Abstract { shared, ty } => EncHeap::Abstract { shared, ty: ty.into() },
        CoreHeapType::Concrete(i) => EncHeap::Concrete(enc_idx(i)),
        CoreHeapType::Exact(i) => EncHeap::Exact(enc_idx(i)),
    }
}

/// Converts a core value type (`RefType`).
#[verifier::external_body]
fn enc_core_val(v: CoreValType) -> EncCoreVal {
    match v {
        CoreValType::I32 => EncCoreVal::I32,
        CoreValType::I64 => EncCoreVal::I64,
        CoreValType::F32 => EncCoreVal::F32,
        CoreValType::F64 => EncCoreVal::F64,
        CoreValType::V128 => EncCoreVal::V128,
        CoreValType::Ref { nullable, heap } => EncCoreVal::Ref(wasm_encoder::RefType { nullable, heap_type: enc_heap(heap) }),
    }
}

/// Converts a storage type.
#[verifier::external_body]
fn enc_storage(s: CoreStorageType) -> EncStorage {
    match s {
        CoreStorageType::I8 => EncStorage::I8,
        CoreStorageType::I16 => EncStorage::I16,
        CoreStorageType::Val(v) => EncStorage::Val(enc_core_val(v)),
    }
}

/// Converts the shape of a composite type (`FuncType::new`, `ArrayType`,
/// `StructType`, `ContType`).
#[verifier::external_body]
fn enc_inner(c: &CompositeInner) -> EncInner {
    let field = |f: &crate::items::CoreFieldType| wasm_encoder::FieldType { element_type: enc_storage(f.element_type), mutable: f.mutable };
    match c {
        CompositeInner::Func { params, results } => EncInner::Func(wasm_encoder::FuncType::new(
            params.iter().map(|v| enc_core_val(*v)),
            results.iter().map(|v| enc_core_val(*v)),
        )),
        CompositeInner::Array(f) => EncInner::Array(wasm_encoder::ArrayType(field(f))),
        CompositeInner::Struct(fs) => EncInner::Struct(wasm_encoder::StructType { fields: fs.iter().map(field).collect() }),
        CompositeInner::Cont(i) => EncInner::Cont(wasm_encoder::ContType(enc_idx(*i))),
    }
}

/// Converts a subtype (`SubType`, `CompositeType`).
#[verifier::external_body]
fn enc_sub(t: &CoreSubType) -> EncSubType {
    let c = &t.composite_type;
    EncSubType {
        is_final: t.is_final,
        supertype_idxs: t.supertype_idxs.iter().map(|i| enc_idx(*i)).collect(),
        composite_type: wasm_encoder::CompositeType {
            inner: enc_inner(&c.inner),
            shared: c.shared,
            descriptor: c.descriptor_idx.map(enc_idx),
            describes: c.describes_idx.map(enc_idx),
        },
    }
}

/// Adds a recursion group (`CoreTypeEncoder::rec`, or `subtype` for the
/// one type of a group written without `rec`).
#[verifier::external_body]
fn enc_rec_group(enc: EncCoreEncoder<'_>, g: &CoreRecGroup) {
    if g.explicit {
        enc.rec(g.types.iter().map(enc_sub));
    } else {
        enc.subtype(&enc_sub(&g.types[0]));
    }
}

/// Converts a core entity type (`From<wasmparser::MemoryType>`,
/// `TryFrom<wasmparser::TableType>`, `TryFrom<wasmparser::GlobalType>`,
/// `From<wasmparser::TagKind>`); `None` where `wasm_encoder` refuses it.
#[verifier::external_body]
fn enc_entity(t: CoreTypeRef) -> Option<EncEntity> {
    Some(match t {
        CoreTypeRef::Func(i) => EncEntity::Function(i),
        CoreTypeRef::FuncExact(i) => EncEntity::FunctionExact(i),
        CoreTypeRef::Table(x) => EncEntity::Table(x.try_into().ok()?),
        CoreTypeRef::Memory(x) => EncEntity::Memory(x.into()),
        CoreTypeRef::Global(x) => EncEntity::Global(x.try_into().ok()?),
        CoreTypeRef::Tag { kind, func_type_idx } => EncEntity::Tag(wasm_encoder::TagType { kind: kind.into(), func_type_idx }),
    })
}

/// Builds a module type (`ModuleType::ty`, `export`, `alias_outer_core_type`,
/// `import`).
#[verifier::external_body]
fn enc_module_type(ds: &Vec<ModuleTypeDeclaration>) -> Option<EncModuleType> {
    let mut m = EncModuleType::new();
    for d in ds.iter() {
        match d {
            ModuleTypeDeclaration::Type(g) => enc_rec_group(m.ty(), g),
            ModuleTypeDeclaration::Export { name, ty } => { m.export(name, enc_entity(*ty)?); },
            ModuleTypeDeclaration::OuterAlias { count, index, .. } => { m.alias_outer_core_type(*count, *index); },
            ModuleTypeDeclaration::Import { module, name, ty } => { m.import(module, name, enc_entity(*ty)?); },
        }
    }
    Some(m)
}

/// Adds a core type (`ComponentCoreTypeEncoder::core`, `module`).
#[verifier::external_body]
fn enc_core_type(enc: EncCoreTypeEncoder<'_>, t: &CoreType) -> Option<()> {
    match t {
        CoreType::Rec(g) => enc_rec_group(enc.core(), g),
        CoreType::Module(ds) => enc.module(&enc_module_type(ds)?),
    }
    Some(())
}

/// Writes a core type section of one type (`CoreTypeSection::ty`).
#[verifier::external_body]
fn core_type_bytes(t: &CoreType) -> Option<Vec<u8>> {
    let mut sec = wasm_encoder::CoreTypeSection::new();
    enc_core_type(sec.ty(), t)?;
    Some(section_bytes(&sec))
}

/// Adds a defined type (`ComponentDefinedTypeEncoder`): primitives,
/// records, variants, lists and maps.
#[verifier::external_body]
fn enc_defined(enc: EncDefined<'_>, t: &ComponentDefinedType) {
    match t {
        ComponentDefinedType::Primitive(p) => enc.primitive((*p).into()),
        ComponentDefinedType::Record(fs) => enc.record(fs.iter().map(|(n, v)| (n.as_str(), enc_val(v)))),
        ComponentDefinedType::Variant(cs) => enc.variant(cs.iter().map(|c| (c.name.as_str(), enc_opt_val(&c.ty)))),
        ComponentDefinedType::List(v) => enc.list(enc_val(v)),
        ComponentDefinedType::MapOf(k, v) => enc.map(enc_val(k), enc_val(v)),
        other => enc_defined_more(enc, other),
    }
}

/// Adds a defined type: fixed-length lists, tuples, flags and enums.
#[verifier::external_body]
fn enc_defined_more(enc: EncDefined<'_>, t: &ComponentDefinedType) {
    match t {
        ComponentDefinedType::FixedLengthList(v, n) => enc.fixed_length_list(enc_val(v), *n),
        ComponentDefinedType::Tuple(ts) => enc.tuple(ts.iter().map(enc_val)),
        ComponentDefinedType::Flags(ns) => enc.flags(ns.iter().map(|n| n.as_str())),
        ComponentDefinedType::Enum(ns) => enc.enum_type(ns.iter().map(|n| n.as_str())),
        other => enc_defined_rest(enc, other),
    }
}

/// Adds a defined type: options, results, handles, futures and streams.
#[verifier::external_body]
fn enc_defined_rest(enc: EncDefined<'_>, t: &ComponentDefinedType) {
    match t {
        ComponentDefinedType::Option(v) => enc.option(enc_val(v)),
        ComponentDefinedType::Result { ok, err } => enc.result(enc_opt_val(ok), enc_opt_val(err)),
        ComponentDefinedType::Own(i) => enc.own(*i),
        ComponentDefinedType::Borrow(i) => enc.borrow(*i),
        ComponentDefinedType::Future(v) => enc.future(enc_opt_val(v)),
        ComponentDefinedType::Stream(v) => enc.stream(enc_opt_val(v)),
        _ => {},
    }
}

/// Adds a function type (`ComponentFuncTypeEncoder::async_`, `params`,
/// `result`).
#[verifier::external_body]
fn enc_func(enc: EncTypeEncoder<'_>, f: &ComponentFuncType) {
    enc.function()
        .async_(f.async_)
        .params(f.params.iter().map(|(n, v)| (n.as_str(), enc_val(v))))
        .result(enc_opt_val(&f.result));
}

/// Adds a component type (`ComponentTypeEncoder::defined_type`,
/// `function`, `component`, `instance`, `resource`).
#[verifier::external_body]
fn enc_comp_type(enc: EncTypeEncoder<'_>, t: &ComponentType) -> Option<()> {
    match t {
        ComponentType::Defined(d) => enc_defined(enc.defined_type(), d),
        ComponentType::Func(f) => enc_func(enc, f),
        ComponentType::Component(ds) => enc.component(&enc_component_body(ds)?),
        ComponentType::Instance(ds) => enc.instance(&enc_instance_body(ds)?),
        ComponentType::Resource { rep, dtor } => enc.resource(enc_core_val(*rep), *dtor),
    }
    Some(())
}

/// Builds the body of a component type (`wasm_encoder::ComponentType`:
/// `core_type`, `ty`, `alias`, `export`, `import`).
#[verifier::external_body]
fn enc_component_body(ds: &Vec<ComponentTypeDeclaration>) -> Option<EncComponentType> {
    let mut t = EncComponentType::new();
    for d in ds.iter() {
        match d {
            ComponentTypeDeclaration::CoreType(c) => enc_core_type(t.core_type(), c)?,
            ComponentTypeDeclaration::Type(x) => enc_comp_type(t.ty(), x)?,
            ComponentTypeDeclaration::Alias(a) => { t.alias(enc_alias(a)); },
            ComponentTypeDeclaration::Export { name, ty } => { t.export(name.as_str(), enc_type_ref(ty)); },
            ComponentTypeDeclaration::Import(i) => { t.import(i.name.as_str(), enc_type_ref(&i.ty)); },
        }
    }
    Some(t)
}

/// Builds the body of an instance type (`InstanceType`: `core_type`, `ty`,
/// `alias`, `export`).
#[verifier::external_body]
fn enc_instance_body(ds: &Vec<InstanceTypeDeclaration>) -> Option<EncInstanceType> {
    let mut t = EncInstanceType::new();
    for d in ds.iter() {
        match d {
            InstanceTypeDeclaration::CoreType(c) => enc_core_type(t.core_type(), c)?,
            InstanceTypeDeclaration::Type(x) => enc_comp_type(t.ty(), x)?,
            InstanceTypeDeclaration::Alias(a) => { t.alias(enc_alias(a)); },
            InstanceTypeDeclaration::Export { name, ty } => { t.export(name.as_str(), enc_type_ref(ty)); },
        }
    }
    Some(t)
}

/// Writes a component type section of one type (`ComponentTypeSection::ty`).
#[verifier::external_body]
fn comp_type_bytes(t: &ComponentType) -> Option<Vec<u8>> {
    let mut sec = wasm_encoder::ComponentTypeSection::new();
    enc_comp_type(sec.ty(), t)?;
    Some(section_bytes(&sec))
}

} // verus!
