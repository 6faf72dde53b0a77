//! Reading a component binary with `wasmparser`.
//!
//! The reader walks the binary and hands out one payload per section (and
//! per header and end of each nested module or component), in binary
//! order. Each payload is converted, field by field, into the library's
//! own [`Payload`]; the first payload that cannot be read ends the walk as
//! [`Payload::Malformed`].

use vstd::prelude::*;
use crate::kinds::{CompExternKind, CoreExternKind, OuterAliasKind, CoreOuterAliasKind, InstantiationArgKind};
use crate::items::{
    ComponentValType, TypeBounds, ComponentTypeRef, ComponentImport, ComponentExport,
    ComponentAlias, InstantiationArg, Export, Instance, ComponentInstantiationArg,
    ComponentInstance, ComponentStartFunction, CustomSection, Module, CanonicalOption,
    ResourceOp, TypedOp, TypedOptionsOp, BuiltinOp, CanonicalFunction, VariantCase,
    ComponentDefinedType, ComponentFuncType, ComponentType, ComponentTypeDeclaration,
    InstanceTypeDeclaration, CoreType, ModuleTypeDeclaration, CoreTypeIndex, CoreHeapType, CoreValType,
    CoreStorageType, CoreFieldType, CompositeInner, CoreCompositeType, CoreSubType, CoreRecGroup, CoreTypeRef,
};
use crate::payload::{Error, NameMapKind, NameSubsection, Payload};
use wasmparser::{
    CanonicalOption as WasmCanonicalOption,
    ComponentType as WasmComponentType,
    CoreType as WasmCoreType,
    ComponentTypeRef as WasmComponentTypeRef,
    ComponentValType as WasmComponentValType,
    TypeBounds as WasmTypeBounds,
    ComponentDefinedType as WasmComponentDefinedType,
    ComponentFuncType as WasmComponentFuncType,
    VariantCase as WasmVariantCase,
    ComponentTypeDeclaration as WasmComponentTypeDeclaration,
    InstanceTypeDeclaration as WasmInstanceTypeDeclaration,
    ModuleTypeDeclaration as WasmModuleTypeDeclaration,
    ComponentStartFunction as WasmComponentStartFunction,
    ComponentImport as WasmComponentImport,
    ComponentExport as WasmComponentExport,
    ComponentAlias as WasmComponentAlias,
    Instance as WasmInstance,
    ComponentInstance as WasmComponentInstance,
    CanonicalFunction as WasmCanonicalFunction,
    Export as WasmExport,
    InstantiationArg as WasmInstantiationArg,
    ComponentInstantiationArg as WasmComponentInstantiationArg,
    Payload as WasmPayload,
};

verus! {

#[verifier::external_type_specification]
#[verifier::external_body]
pub struct ExWasmPayload<'a>(WasmPayload<'a>);

#[verifier::external_type_specification]
#[verifier::external_body]
pub struct ExBinaryReaderError(wasmparser::BinaryReaderError);

#[verifier::external_type_specification]
#[verifier::external_body]
#[verifier::reject_recursive_types(T)]
pub struct ExSectionLimited<'a, T>(wasmparser::SectionLimited<'a, T>);

#[verifier::external_type_specification]
#[verifier::external_body]
pub struct ExWComponentImport<'a>(WasmComponentImport<'a>);

#[verifier::external_type_specification]
#[verifier::external_body]
pub struct ExWComponentExport<'a>(WasmComponentExport<'a>);

#[verifier::external_type_specification]
#[verifier::external_body]
pub struct ExWComponentAlias<'a>(WasmComponentAlias<'a>);

#[verifier::external_type_specification]
#[verifier::external_body]
pub struct ExWInstance<'a>(WasmInstance<'a>);

#[verifier::external_type_specification]
#[verifier::external_body]
pub struct ExWComponentInstance<'a>(WasmComponentInstance<'a>);

#[verifier::external_type_specification]
#[verifier::external_body]
pub struct ExWCanonicalFunction(WasmCanonicalFunction);

#[verifier::external_type_specification]
#[verifier::external_body]
pub struct ExWCanonicalOption(WasmCanonicalOption);

#[verifier::external_type_specification]
#[verifier::external_body]
pub struct ExWComponentType<'a>(WasmComponentType<'a>);

#[verifier::external_type_specification]
#[verifier::external_body]
pub struct ExWCoreType<'a>(WasmCoreType<'a>);

#[verifier::external_type_specification]
#[verifier::external_body]
pub struct ExWComponentTypeRef(WasmComponentTypeRef);

#[verifier::external_type_specification]
#[verifier::external_body]
pub struct ExWComponentValType(WasmComponentValType);

#[verifier::external_type_specification]
#[verifier::external_body]
pub struct ExWComponentExternalKind(wasmparser::ComponentExternalKind);

#[verifier::external_type_specification]
#[verifier::external_body]
pub struct ExWExternalKind(wasmparser::ExternalKind);

#[verifier::external_type_specification]
#[verifier::external_body]
pub struct ExWComponentOuterAliasKind(wasmparser::ComponentOuterAliasKind);

#[verifier::external_type_specification]
#[verifier::external_body]
pub struct ExWTypeBounds(WasmTypeBounds);

#[verifier::external_type_specification]
#[verifier::external_body]
pub struct ExWComponentDefinedType<'a>(WasmComponentDefinedType<'a>);

#[verifier::external_type_specification]
#[verifier::external_body]
pub struct ExWComponentFuncType<'a>(WasmComponentFuncType<'a>);

#[verifier::external_type_specification]
#[verifier::external_body]
pub struct ExWVariantCase<'a>(WasmVariantCase<'a>);

#[verifier::external_type_specification]
#[verifier::external_body]
pub struct ExWComponentTypeDeclaration<'a>(WasmComponentTypeDeclaration<'a>);

#[verifier::external_type_specification]
#[verifier::external_body]
pub struct ExWInstanceTypeDeclaration<'a>(WasmInstanceTypeDeclaration<'a>);

#[verifier::external_type_specification]
#[verifier::external_body]
pub struct ExWModuleTypeDeclaration<'a>(WasmModuleTypeDeclaration<'a>);

#[verifier::external_type_specification]
#[verifier::external_body]
pub struct ExWComponentStartFunction(WasmComponentStartFunction);

#[verifier::external_type_specification]
#[verifier::external_body]
pub struct ExWExport<'a>(WasmExport<'a>);

#[verifier::external_type_specification]
#[verifier::external_body]
pub struct ExWInstantiationArg<'a>(WasmInstantiationArg<'a>);

#[verifier::external_type_specification]
#[verifier::external_body]
pub struct ExWComponentInstantiationArg<'a>(WasmComponentInstantiationArg<'a>);

#[verifier::external_type_specification]
#[verifier::external_body]
pub struct ExWCustomSectionReader<'a>(wasmparser::CustomSectionReader<'a>);

#[verifier::external_type_specification]
#[verifier::external_body]
pub struct ExWComponentName<'a>(wasmparser::ComponentName<'a>);

#[verifier::external_type_specification]
#[verifier::external_body]
pub struct ExWNaming<'a>(wasmparser::Naming<'a>);

#[verifier::external_type_specification]
#[verifier::external_body]
pub struct ExWNameMap<'a>(wasmparser::NameMap<'a>);

#[verifier::external_type_specification]
#[verifier::external_body]
#[verifier::reject_recursive_types(T)]
pub struct ExWSubsections<'a, T>(wasmparser::Subsections<'a, T>);

#[verifier::external_type_specification]
#[verifier::external_body]
pub struct ExWPackedIndex(wasmparser::PackedIndex);

#[verifier::external_type_specification]
#[verifier::external_body]
pub struct ExWUnpackedIndex(wasmparser::UnpackedIndex);

#[verifier::external_type_specification]
#[verifier::external_body]
pub struct ExWHeapType(wasmparser::HeapType);

#[verifier::external_type_specification]
#[verifier::external_body]
pub struct ExWValType(wasmparser::ValType);

#[verifier::external_type_specification]
#[verifier::external_body]
pub struct ExWFieldType(wasmparser::FieldType);

#[verifier::external_type_specification]
#[verifier::external_body]
pub struct ExWCompositeInnerType(wasmparser::CompositeInnerType);

#[verifier::external_type_specification]
#[verifier::external_body]
pub struct ExWSubType(wasmparser::SubType);

#[verifier::external_type_specification]
#[verifier::external_body]
pub struct ExWRecGroup(wasmparser::RecGroup);

#[verifier::external_type_specification]
#[verifier::external_body]
pub struct ExWTypeRef(wasmparser::TypeRef);

/// What `wasmparser` reads a binary into: the payloads that
/// `wasmparser::Parser::parse_all` hands out from offset 0, in binary
/// order, each converted to a [`Payload`]; a payload whose items cannot
/// be read, and the error that ends the walk, are [`Payload::Malformed`].
pub uninterp spec fn payloads_of(wasm: Seq<u8>) -> Seq<Payload>;

/// Walks `wasm` with `wasmparser::Parser::parse_all` (which ends after the
/// first error) and converts each payload. Claimed: the result depends on
/// the bytes alone.
#[verifier::external_body]
pub(crate) fn read_payloads(wasm: &[u8]) -> (r: Vec<Payload>)
    ensures
        r@ == payloads_of(wasm@),
{
    wasmparser::Parser::new(0).parse_all(wasm).map(|p| match p {
        Ok(p) => convert_payload(wasm, p),
        Err(e) => Payload::Malformed(reader_error(&e)),
    }).collect()
}

/// Converts a reader error (`BinaryReaderError::message`, `offset`).
#[verifier::external_body]
fn reader_error(e: &wasmparser::BinaryReaderError) -> Error {
    Error::BinaryReader { message: e.message().to_string(), offset: e.offset() as usize }
}

/// Reads every item of a section (`SectionLimited::into_iter`), converting
/// each with `f`; the first item that cannot be read gives its error.
#[verifier::external_body]
fn read_section<'a, T: wasmparser::FromReader<'a>, U, F: Fn(T) -> U>(
    r: wasmparser::SectionLimited<'a, T>,
    f: F,
) -> Result<Vec<U>, Error> {
    let mut out = Vec::new();
    for item in r {
        match item {
            Ok(x) => out.push(f(x)),
            Err(e) => return Err(reader_error(&e)),
        }
    }
    Ok(out)
}

/// The payload that `f` makes of the items of a section that were read,
/// or the error that reading them gave.
fn section_payload<U, F: Fn(Vec<U>) -> Payload>(r: Result<Vec<U>, Error>, f: F) -> (p: Payload)
    requires
        forall|v: Vec<U>| f.requires((v,)),
    ensures
        r matches Err(e) ==> p == Payload::Malformed(e),
        r matches Ok(v) ==> f.ensures((v,), p),
{
    match r {
        Ok(items) => f(items),
        Err(e) => Payload::Malformed(e),
    }
}

/// Converts one payload of `wasmparser::Payload`: the component sections.
#[verifier::external_body]
fn convert_payload<'a>(wasm: &'a [u8], p: wasmparser::Payload<'a>) -> Payload {
    match p {
        wasmparser::Payload::ComponentImportSection(r) => section_payload(read_section(r, conv_import), Payload::ComponentImports),
        wasmparser::Payload::ComponentExportSection(r) => section_payload(read_section(r, conv_export), Payload::ComponentExports),
        wasmparser::Payload::InstanceSection(r) => section_payload(read_section(r, conv_instance), Payload::CoreInstances),
        wasmparser::Payload::CoreTypeSection(r) => section_payload(read_section(r, conv_core_type), Payload::CoreTypes),
        wasmparser::Payload::ComponentTypeSection(r) => section_payload(read_section(r, conv_comp_type), Payload::ComponentTypes),
        wasmparser::Payload::ComponentInstanceSection(r) => section_payload(read_section(r, conv_comp_instance), Payload::ComponentInstances),
        wasmparser::Payload::ComponentAliasSection(r) => section_payload(read_section(r, conv_alias), Payload::Aliases),
        wasmparser::Payload::ComponentCanonicalSection(r) => section_payload(read_section(r, conv_canon), Payload::Canons),
        other => convert_other_payload(wasm, other),
    }
}

/// Converts one payload of `wasmparser::Payload`: headers, ends, nested
/// modules and components, start, custom and unknown sections. The range
/// of a nested module is not checked by the parser; one that runs past the
/// end of the binary (`<[u8]>::get` gives `None`) is malformed.
#[verifier::external_body]
fn convert_other_payload<'a>(wasm: &'a [u8], p: wasmparser::Payload<'a>) -> Payload {
    match p {
        wasmparser::Payload::Version { .. } => Payload::Version,
        wasmparser::Payload::End(_) => Payload::End,
        wasmparser::Payload::ModuleSection { unchecked_range: r, .. } => match wasm.get(r.start as usize..r.end as usize) {
            Some(b) => Payload::ModuleSection(Module { bytes: b.to_vec() }),
            None => Payload::Malformed(Error::SectionOutOfBounds { start: r.start, end: r.end }),
        },
        wasmparser::Payload::ComponentSection { .. } => Payload::ComponentSection,
        wasmparser::Payload::ComponentStartSection { start, .. } => Payload::Start(conv_start(start)),
        wasmparser::Payload::CustomSection(r) => convert_custom(&r),
        wasmparser::Payload::UnknownSection { id, .. } => Payload::UnknownSection { id },
        other => Payload::Other(format!("{other:?}")),
    }
}

/// Converts a custom section (`CustomSectionReader::as_known`, `name`,
/// `data`): the component name section by its subsections, any other one
/// by its name and data.
#[verifier::external_body]
fn convert_custom<'a>(r: &wasmparser::CustomSectionReader<'a>) -> Payload {
    match r.as_known() {
        wasmparser::KnownCustom::ComponentName(names) => read_component_names(names),
        _ => Payload::Custom(CustomSection { name: r.name().to_string(), data: r.data().to_vec() }),
    }
}

/// Reads the subsections of the component name section.
#[verifier::external_body]
fn read_component_names<'a>(names: wasmparser::ComponentNameSectionReader<'a>) -> Payload {
    let mut out = Vec::new();
    for sub in names {
        match sub {
            Ok(s) => match conv_name_subsection(s) {
                Ok(n) => out.push(n),
                Err(e) => return Payload::Malformed(e),
            },
            Err(e) => return Payload::Malformed(reader_error(&e)),
        }
    }
    Payload::ComponentNames(out)
}

/// Converts one subsection of the component name section: the
/// component's own name and the names of core items.
#[verifier::external_body]
fn conv_name_subsection<'a>(s: wasmparser::ComponentName<'a>) -> Result<NameSubsection, Error> {
    match s {
        wasmparser::ComponentName::Component { name, .. } => Ok(NameSubsection::Component(name.to_string())),
        wasmparser::ComponentName::CoreFuncs(m) => name_map(NameMapKind::CoreFuncs, m),
        wasmparser::ComponentName::CoreGlobals(m) => name_map(NameMapKind::CoreGlobals, m),
        wasmparser::ComponentName::CoreMemories(m) => name_map(NameMapKind::CoreMemories, m),
        wasmparser::ComponentName::CoreTables(m) => name_map(NameMapKind::CoreTables, m),
        wasmparser::ComponentName::CoreTags(m) => name_map(NameMapKind::CoreTags, m),
        wasmparser::ComponentName::CoreModules(m) => name_map(NameMapKind::CoreModules, m),
        wasmparser::ComponentName::CoreInstances(m) => name_map(NameMapKind::CoreInstances, m),
        wasmparser::ComponentName::CoreTypes(m) => name_map(NameMapKind::CoreTypes, m),
        other => conv_comp_name_subsection(other),
    }
}

/// Converts one subsection of the component name section: the names of
/// component items; any other subsection is unknown here.
#[verifier::external_body]
fn conv_comp_name_subsection<'a>(s: wasmparser::ComponentName<'a>) -> Result<NameSubsection, Error> {
    match s {
        wasmparser::ComponentName::Types(m) => name_map(NameMapKind::Types, m),
        wasmparser::ComponentName::Instances(m) => name_map(NameMapKind::Instances, m),
        wasmparser::ComponentName::Components(m) => name_map(NameMapKind::Components, m),
        wasmparser::ComponentName::Funcs(m) => name_map(NameMapKind::Funcs, m),
        wasmparser::ComponentName::Values(m) => name_map(NameMapKind::Values, m),
        _ => Ok(NameSubsection::Unknown),
    }
}

/// Reads an index-to-name map (`NameMap` as an iterator).
#[verifier::external_body]
fn name_map<'a>(kind: NameMapKind, m: wasmparser::NameMap<'a>) -> Result<NameSubsection, Error> {
    let mut names = Vec::new();
    for n in m {
        match n {
            Ok(n) => names.push(conv_naming(n)),
            Err(e) => return Err(reader_error(&e)),
        }
    }
    Ok(NameSubsection::Names(kind, names))
}

/// Converts a naming.
#[verifier::external_body]
fn conv_naming<'a>(n: wasmparser::Naming<'a>) -> (u32, String) {
    (n.index, n.name.to_string())
}

/// Converts a component external kind.
#[verifier::external_body]
fn conv_extern_kind(k: wasmparser::ComponentExternalKind) -> CompExternKind {
    match k {
        wasmparser::ComponentExternalKind::Module => CompExternKind::Module,
        wasmparser::ComponentExternalKind::Func => CompExternKind::Func,
        wasmparser::ComponentExternalKind::Value => CompExternKind::Value,
        wasmparser::ComponentExternalKind::Type => CompExternKind::Type,
        wasmparser::ComponentExternalKind::Instance => CompExternKind::Instance,
        wasmparser::ComponentExternalKind::Component => CompExternKind::Component,
    }
}

/// Converts a core external kind.
#[verifier::external_body]
fn conv_core_kind(k: wasmparser::ExternalKind) -> CoreExternKind {
    match k {
        wasmparser::ExternalKind::Func => CoreExternKind::Func,
        wasmparser::ExternalKind::Table => CoreExternKind::Table,
        wasmparser::ExternalKind::Memory => CoreExternKind::Memory,
        wasmparser::ExternalKind::Global => CoreExternKind::Global,
        wasmparser::ExternalKind::Tag => CoreExternKind::Tag,
        wasmparser::ExternalKind::FuncExact => CoreExternKind::FuncExact,
    }
}

/// Converts an outer alias kind.
#[verifier::external_body]
fn conv_outer_kind(k: wasmparser::ComponentOuterAliasKind) -> OuterAliasKind {
    match k {
        wasmparser::ComponentOuterAliasKind::CoreModule => OuterAliasKind::CoreModule,
        wasmparser::ComponentOuterAliasKind::CoreType => OuterAliasKind::CoreType,
        wasmparser::ComponentOuterAliasKind::Type => OuterAliasKind::Type,
        wasmparser::ComponentOuterAliasKind::Component => OuterAliasKind::Component,
    }
}

/// Converts a component value type.
#[verifier::external_body]
fn conv_val(v: wasmparser::ComponentValType) -> ComponentValType {
    match v {
        wasmparser::ComponentValType::Primitive(p) => ComponentValType::Primitive(p),
        wasmparser::ComponentValType::Type(i) => ComponentValType::Type(i),
    }
}

/// Converts type bounds.
#[verifier::external_body]
fn conv_bounds(b: wasmparser::TypeBounds) -> TypeBounds {
    match b {
        wasmparser::TypeBounds::Eq(i) => TypeBounds::Eq(i),
        wasmparser::TypeBounds::SubResource => TypeBounds::SubResource,
    }
}

/// Converts a type reference.
#[verifier::external_body]
fn conv_type_ref(t: wasmparser::ComponentTypeRef) -> ComponentTypeRef {
    match t {
        wasmparser::ComponentTypeRef::Module(i) => ComponentTypeRef::Module(i),
        wasmparser::ComponentTypeRef::Func(i) => ComponentTypeRef::Func(i),
        wasmparser::ComponentTypeRef::Value(v) => ComponentTypeRef::Value(conv_val(v)),
        wasmparser::ComponentTypeRef::Type(b) => ComponentTypeRef::Type(conv_bounds(b)),
        wasmparser::ComponentTypeRef::Instance(i) => ComponentTypeRef::Instance(i),
        wasmparser::ComponentTypeRef::Component(i) => ComponentTypeRef::Component(i),
    }
}

/// Converts an import; its name is the plain name of the extern name.
#[verifier::external_body]
fn conv_import<'a>(i: wasmparser::ComponentImport<'a>) -> ComponentImport {
    ComponentImport { name: i.name.name.to_string(), ty: conv_type_ref(i.ty) }
}

/// Converts an export; its name is the plain name of the extern name.
#[verifier::external_body]
fn conv_export<'a>(e: wasmparser::ComponentExport<'a>) -> ComponentExport {
    ComponentExport {
        name: e.name.name.to_string(),
        kind: conv_extern_kind(e.kind),
        index: e.index,
        ty: e.ty.map(conv_type_ref),
    }
}

/// Converts an alias.
#[verifier::external_body]
fn conv_alias<'a>(a: wasmparser::ComponentAlias<'a>) -> ComponentAlias {
    match a {
        wasmparser::ComponentAlias::InstanceExport { kind, instance_index, name } =>
            ComponentAlias::InstanceExport { kind: conv_extern_kind(kind), instance_index, name: name.to_string() },
        wasmparser::ComponentAlias::CoreInstanceExport { kind, instance_index, name } =>
            ComponentAlias::CoreInstanceExport { kind: conv_core_kind(kind), instance_index, name: name.to_string() },
        wasmparser::ComponentAlias::Outer { kind, count, index } =>
            ComponentAlias::Outer { kind: conv_outer_kind(kind), count, index },
    }
}

/// Converts an argument of a core instantiation.
#[verifier::external_body]
fn conv_inst_arg<'a>(a: wasmparser::InstantiationArg<'a>) -> InstantiationArg {
    InstantiationArg { name: a.name.to_string(), kind: InstantiationArgKind::Instance, index: a.index }
}

/// Converts an export of a core instance.
#[verifier::external_body]
fn conv_core_export<'a>(e: wasmparser::Export<'a>) -> Export {
    Export { name: e.name.to_string(), kind: conv_core_kind(e.kind), index: e.index }
}

/// Converts a core instance.
#[verifier::external_body]
fn conv_instance<'a>(i: wasmparser::Instance<'a>) -> Instance {
    match i {
        wasmparser::Instance::Instantiate { module_index, args } =>
            Instance::Instantiate { module_index, args: args.into_vec().into_iter().map(conv_inst_arg).collect() },
        wasmparser::Instance::FromExports(exports) =>
            Instance::FromExports(exports.into_vec().into_iter().map(conv_core_export).collect()),
    }
}

/// Converts an argument of a component instantiation.
#[verifier::external_body]
fn conv_comp_inst_arg<'a>(a: wasmparser::ComponentInstantiationArg<'a>) -> ComponentInstantiationArg {
    ComponentInstantiationArg { name: a.name.to_string(), kind: conv_extern_kind(a.kind), index: a.index }
}

/// Converts a component instance.
#[verifier::external_body]
fn conv_comp_instance<'a>(i: wasmparser::ComponentInstance<'a>) -> ComponentInstance {
    match i {
        wasmparser::ComponentInstance::Instantiate { component_index, args } => ComponentInstance::Instantiate {
            component_index,
            args: args.into_vec().into_iter().map(conv_comp_inst_arg).collect(),
        },
        wasmparser::ComponentInstance::FromExports(exports) =>
            ComponentInstance::FromExports(exports.into_vec().into_iter().map(conv_export).collect()),
    }
}

/// Converts the start function.
#[verifier::external_body]
fn conv_start(s: wasmparser::ComponentStartFunction) -> ComponentStartFunction {
    ComponentStartFunction { func_index: s.func_index, arguments: s.arguments.into_vec(), results: s.results }
}

/// Converts a canonical option.
#[verifier::external_body]
fn conv_option(o: wasmparser::CanonicalOption) -> CanonicalOption {
    match o {
        wasmparser::CanonicalOption::UTF8 => CanonicalOption::UTF8,
        wasmparser::CanonicalOption::UTF16 => CanonicalOption::UTF16,
        wasmparser::CanonicalOption::CompactUTF16 => CanonicalOption::CompactUTF16,
        wasmparser::CanonicalOption::Memory(i) => CanonicalOption::Memory(i),
        wasmparser::CanonicalOption::Realloc(i) => CanonicalOption::Realloc(i),
        wasmparser::CanonicalOption::PostReturn(i) => CanonicalOption::PostReturn(i),
        wasmparser::CanonicalOption::Async => CanonicalOption::Async,
        wasmparser::CanonicalOption::Callback(i) => CanonicalOption::Callback(i),
        wasmparser::CanonicalOption::CoreType(i) => CanonicalOption::CoreType(i),
        wasmparser::CanonicalOption::Gc => CanonicalOption::Gc,
    }
}

/// Converts a list of canonical options.
#[verifier::external_body]
fn conv_options(o: Box<[wasmparser::CanonicalOption]>) -> Vec<CanonicalOption> {
    o.into_vec().into_iter().map(conv_option).collect()
}

/// Converts a canonical function: lifts, lowers, resource built-ins and
/// direct thread spawns.
#[verifier::external_body]
fn conv_canon(c: wasmparser::CanonicalFunction) -> CanonicalFunction {
    match c {
        wasmparser::CanonicalFunction::Lift { core_func_index, type_index, options } =>
            CanonicalFunction::Lift { core_func_index, type_index, options: conv_options(options) },
        wasmparser::CanonicalFunction::Lower { func_index, options } =>
            CanonicalFunction::Lower { func_index, options: conv_options(options) },
        wasmparser::CanonicalFunction::ResourceNew { resource } => CanonicalFunction::Resource { op: ResourceOp::New, resource },
        wasmparser::CanonicalFunction::ResourceDrop { resource } => CanonicalFunction::Resource { op: ResourceOp::Drop, resource },
        wasmparser::CanonicalFunction::ResourceRep { resource } => CanonicalFunction::Resource { op: ResourceOp::Rep, resource },
        wasmparser::CanonicalFunction::ThreadSpawnRef { func_ty_index } => CanonicalFunction::ThreadSpawnRef { func_ty_index },
        other => conv_canon_indirect(other),
    }
}

/// Converts a canonical function: indirect thread built-ins and task
/// return.
#[verifier::external_body]
fn conv_canon_indirect(c: wasmparser::CanonicalFunction) -> CanonicalFunction {
    match c {
        wasmparser::CanonicalFunction::ThreadSpawnIndirect { func_ty_index, table_index } =>
            CanonicalFunction::ThreadSpawnIndirect { func_ty_index, table_index },
        wasmparser::CanonicalFunction::ThreadNewIndirect { func_ty_index, table_index } =>
            CanonicalFunction::ThreadNewIndirect { func_ty_index, table_index },
        wasmparser::CanonicalFunction::TaskReturn { result, options } =>
            CanonicalFunction::TaskReturn { result: result.map(conv_val), options: conv_options(options) },
        other => conv_canon_stream(other),
    }
}

/// Converts a canonical function: stream built-ins that name only their
/// type.
#[verifier::external_body]
fn conv_canon_stream(c: wasmparser::CanonicalFunction) -> CanonicalFunction {
    match c {
        wasmparser::CanonicalFunction::StreamNew { ty } => CanonicalFunction::Typed { op: TypedOp::StreamNew, ty },
        wasmparser::CanonicalFunction::StreamForward { ty } => CanonicalFunction::Typed { op: TypedOp::StreamForward, ty },
        wasmparser::CanonicalFunction::StreamCancelRead { ty, async_ } => CanonicalFunction::Typed { op: TypedOp::StreamCancelRead { async_ }, ty },
        wasmparser::CanonicalFunction::StreamCancelWrite { ty, async_ } => CanonicalFunction::Typed { op: TypedOp::StreamCancelWrite { async_ }, ty },
        wasmparser::CanonicalFunction::StreamDropReadable { ty } => CanonicalFunction::Typed { op: TypedOp::StreamDropReadable, ty },
        wasmparser::CanonicalFunction::StreamDropWritable { ty } => CanonicalFunction::Typed { op: TypedOp::StreamDropWritable, ty },
        other => conv_canon_future(other),
    }
}

/// Converts a canonical function: future built-ins that name only their
/// type.
#[verifier::external_body]
fn conv_canon_future(c: wasmparser::CanonicalFunction) -> CanonicalFunction {
    match c {
        wasmparser::CanonicalFunction::FutureNew { ty } => CanonicalFunction::Typed { op: TypedOp::FutureNew, ty },
        wasmparser::CanonicalFunction::FutureForward { ty } => CanonicalFunction::Typed { op: TypedOp::FutureForward, ty },
        wasmparser::CanonicalFunction::FutureCancelRead { ty, async_ } => CanonicalFunction::Typed { op: TypedOp::FutureCancelRead { async_ }, ty },
        wasmparser::CanonicalFunction::FutureCancelWrite { ty, async_ } => CanonicalFunction::Typed { op: TypedOp::FutureCancelWrite { async_ }, ty },
        wasmparser::CanonicalFunction::FutureDropReadable { ty } => CanonicalFunction::Typed { op: TypedOp::FutureDropReadable, ty },
        wasmparser::CanonicalFunction::FutureDropWritable { ty } => CanonicalFunction::Typed { op: TypedOp::FutureDropWritable, ty },
        other => conv_canon_read_write(other),
    }
}

/// Converts a canonical function: stream and future reads and writes.
#[verifier::external_body]
fn conv_canon_read_write(c: wasmparser::CanonicalFunction) -> CanonicalFunction {
    match c {
        wasmparser::CanonicalFunction::StreamRead { ty, options } =>
            CanonicalFunction::TypedWithOptions { op: TypedOptionsOp::StreamRead, ty, options: conv_options(options) },
        wasmparser::CanonicalFunction::StreamWrite { ty, options } =>
            CanonicalFunction::TypedWithOptions { op: TypedOptionsOp::StreamWrite, ty, options: conv_options(options) },
        wasmparser::CanonicalFunction::FutureRead { ty, options } =>
            CanonicalFunction::TypedWithOptions { op: TypedOptionsOp::FutureRead, ty, options: conv_options(options) },
        wasmparser::CanonicalFunction::FutureWrite { ty, options } =>
            CanonicalFunction::TypedWithOptions { op: TypedOptionsOp::FutureWrite, ty, options: conv_options(options) },
        other => conv_canon_misc(other),
    }
}

/// Converts a canonical function: error contexts and waitable sets.
#[verifier::external_body]
fn conv_canon_misc(c: wasmparser::CanonicalFunction) -> CanonicalFunction {
    match c {
        wasmparser::CanonicalFunction::ErrorContextNew { options } => CanonicalFunction::ErrorContextNew { options: conv_options(options) },
        wasmparser::CanonicalFunction::ErrorContextDebugMessage { options } =>
            CanonicalFunction::ErrorContextDebugMessage { options: conv_options(options) },
        wasmparser::CanonicalFunction::WaitableSetWait { memory, .. } => CanonicalFunction::WaitableSetWait { memory },
        wasmparser::CanonicalFunction::WaitableSetPoll { memory, .. } => CanonicalFunction::WaitableSetPoll { memory },
        other => CanonicalFunction::Builtin(conv_builtin(other)),
    }
}

/// Converts a canonical built-in that refers to no index: task, context,
/// subtask and backpressure built-ins.
#[verifier::external_body]
fn conv_builtin(c: wasmparser::CanonicalFunction) -> BuiltinOp {
    match c {
        wasmparser::CanonicalFunction::ThreadAvailableParallelism => BuiltinOp::ThreadAvailableParallelism,
        wasmparser::CanonicalFunction::BackpressureInc => BuiltinOp::BackpressureInc,
        wasmparser::CanonicalFunction::BackpressureDec => BuiltinOp::BackpressureDec,
        wasmparser::CanonicalFunction::TaskCancel => BuiltinOp::TaskCancel,
        wasmparser::CanonicalFunction::ContextGet { ty, slot } => BuiltinOp::ContextGet { ty: conv_core_val(ty), slot },
        wasmparser::CanonicalFunction::ContextSet { ty, slot } => BuiltinOp::ContextSet { ty: conv_core_val(ty), slot },
        wasmparser::CanonicalFunction::SubtaskDrop => BuiltinOp::SubtaskDrop,
        wasmparser::CanonicalFunction::SubtaskCancel { async_ } => BuiltinOp::SubtaskCancel { async_ },
        wasmparser::CanonicalFunction::ErrorContextDrop => BuiltinOp::ErrorContextDrop,
        wasmparser::CanonicalFunction::WaitableSetNew => BuiltinOp::WaitableSetNew,
        wasmparser::CanonicalFunction::WaitableSetDrop => BuiltinOp::WaitableSetDrop,
        wasmparser::CanonicalFunction::WaitableJoin => BuiltinOp::WaitableJoin,
        other => conv_thread_builtin(other),
    }
}

/// Converts a canonical built-in that refers to no index: thread
/// built-ins.
#[verifier::external_body]
fn conv_thread_builtin(c: wasmparser::CanonicalFunction) -> BuiltinOp {
    match c {
        wasmparser::CanonicalFunction::ThreadYield => BuiltinOp::ThreadYield,
        wasmparser::CanonicalFunction::ThreadIndex => BuiltinOp::ThreadIndex,
        wasmparser::CanonicalFunction::ThreadResumeLater => BuiltinOp::ThreadResumeLater,
        wasmparser::CanonicalFunction::ThreadSuspend => BuiltinOp::ThreadSuspend,
        wasmparser::CanonicalFunction::ThreadSuspendThenResume => BuiltinOp::ThreadSuspendThenResume,
        wasmparser::CanonicalFunction::ThreadYieldThenResume => BuiltinOp::ThreadYieldThenResume,
        wasmparser::CanonicalFunction::ThreadSuspendThenPromote => BuiltinOp::ThreadSuspendThenPromote,
        wasmparser::CanonicalFunction::ThreadYieldThenPromote => BuiltinOp::ThreadYieldThenPromote,
        _ => BuiltinOp::Other,
    }
}


/// Converts a type index (`PackedIndex::unpack`).
#[verifier::external_body]
fn conv_index(p: wasmparser::PackedIndex) -> CoreTypeIndex {
    match p.unpack() {
        wasmparser::UnpackedIndex::Module(i) => CoreTypeIndex::Module(i),
        wasmparser::UnpackedIndex::RecGroup(i) => CoreTypeIndex::RecGroup(i),
        wasmparser::UnpackedIndex::Id(_) => CoreTypeIndex::Canonical,
    }
}

/// Converts a heap type (`RefType::heap_type`).
#[verifier::external_body]
fn conv_heap(h: wasmparser::HeapType) -> CoreHeapType {
    match h {
        wasmparser::HeapType::Abstract { shared, ty } => CoreHeapType::Abstract { shared, ty },
        wasmparser::HeapType::Concrete(i) => CoreHeapType::Concrete(conv_unpacked(i)),
        wasmparser::HeapType::Exact(i) => CoreHeapType::Exact(conv_unpacked(i)),
    }
}

/// Converts an unpacked type index.
#[verifier::external_body]
fn conv_unpacked(i: wasmparser::UnpackedIndex) -> CoreTypeIndex {
    match i {
        wasmparser::UnpackedIndex::Module(i) => CoreTypeIndex::Module(i),
        wasmparser::UnpackedIndex::RecGroup(i) => CoreTypeIndex::RecGroup(i),
        wasmparser::UnpackedIndex::Id(_) => CoreTypeIndex::Canonical,
    }
}

/// Converts a core value type (a reference type by `is_nullable` and
/// `heap_type`).
#[verifier::external_body]
fn conv_core_val(v: wasmparser::ValType) -> CoreValType {
    match v {
        wasmparser::ValType::I32 => CoreValType::I32,
        wasmparser::ValType::I64 => CoreValType::I64,
        wasmparser::ValType::F32 => CoreValType::F32,
        wasmparser::ValType::F64 => CoreValType::F64,
        wasmparser::ValType::V128 => CoreValType::V128,
        wasmparser::ValType::Ref(r) => CoreValType::Ref { nullable: r.is_nullable(), heap: conv_heap(r.heap_type()) },
    }
}

/// Converts a field of a struct or an array.
#[verifier::external_body]
fn conv_field(f: wasmparser::FieldType) -> CoreFieldType {
    let element_type = match f.element_type {
        wasmparser::StorageType::I8 => CoreStorageType::I8,
        wasmparser::StorageType::I16 => CoreStorageType::I16,
        wasmparser::StorageType::Val(v) => CoreStorageType::Val(conv_core_val(v)),
    };
    CoreFieldType { element_type, mutable: f.mutable }
}

/// Converts the shape of a composite type (`FuncType::params`,
/// `FuncType::results`).
#[verifier::external_body]
fn conv_inner(t: wasmparser::CompositeInnerType) -> CompositeInner {
    match t {
        wasmparser::CompositeInnerType::Func(f) => CompositeInner::Func {
            params: f.params().iter().map(|v| conv_core_val(*v)).collect(),
            results: f.results().iter().map(|v| conv_core_val(*v)).collect(),
        },
        wasmparser::CompositeInnerType::Array(a) => CompositeInner::Array(conv_field(a.0)),
        wasmparser::CompositeInnerType::Struct(s) => CompositeInner::Struct(s.fields.iter().map(|f| conv_field(*f)).collect()),
        wasmparser::CompositeInnerType::Cont(c) => CompositeInner::Cont(conv_index(c.0)),
    }
}

/// Converts a type of a recursion group.
#[verifier::external_body]
fn conv_sub_type(t: wasmparser::SubType) -> CoreSubType {
    let c = t.composite_type;
    CoreSubType {
        is_final: t.is_final,
        supertype_idxs: t.supertype_idxs.into_iter().map(conv_index).collect(),
        composite_type: CoreCompositeType {
            inner: conv_inner(c.inner),
            shared: c.shared,
            descriptor_idx: c.descriptor_idx.map(conv_index),
            describes_idx: c.describes_idx.map(conv_index),
        },
    }
}

/// Converts a recursion group (`RecGroup::is_explicit_rec_group`,
/// `RecGroup::into_types`).
#[verifier::external_body]
fn conv_rec_group(g: wasmparser::RecGroup) -> CoreRecGroup {
    CoreRecGroup { explicit: g.is_explicit_rec_group(), types: g.into_types().map(conv_sub_type).collect() }
}

/// Converts the type of an imported or exported core item.
#[verifier::external_body]
fn conv_core_type_ref(t: wasmparser::TypeRef) -> CoreTypeRef {
    match t {
        wasmparser::TypeRef::Func(i) => CoreTypeRef::Func(i),
        wasmparser::TypeRef::Table(t) => CoreTypeRef::Table(t),
        wasmparser::TypeRef::Memory(m) => CoreTypeRef::Memory(m),
        wasmparser::TypeRef::Global(g) => CoreTypeRef::Global(g),
        wasmparser::TypeRef::Tag(t) => CoreTypeRef::Tag { kind: t.kind, func_type_idx: t.func_type_idx },
        wasmparser::TypeRef::FuncExact(i) => CoreTypeRef::FuncExact(i),
    }
}

/// Converts a core type.
#[verifier::external_body]
fn conv_core_type<'a>(t: wasmparser::CoreType<'a>) -> CoreType {
    match t {
        wasmparser::CoreType::Rec(g) => CoreType::Rec(conv_rec_group(g)),
        wasmparser::CoreType::Module(decls) => CoreType::Module(decls.into_vec().into_iter().map(conv_module_decl).collect()),
    }
}

/// Converts a declaration of a core module type.
#[verifier::external_body]
fn conv_module_decl<'a>(d: wasmparser::ModuleTypeDeclaration<'a>) -> ModuleTypeDeclaration {
    match d {
        wasmparser::ModuleTypeDeclaration::Type(g) => ModuleTypeDeclaration::Type(conv_rec_group(g)),
        wasmparser::ModuleTypeDeclaration::Export { name, ty } =>
            ModuleTypeDeclaration::Export { name: name.to_string(), ty: conv_core_type_ref(ty) },
        wasmparser::ModuleTypeDeclaration::OuterAlias { kind: wasmparser::OuterAliasKind::Type, count, index } =>
            ModuleTypeDeclaration::OuterAlias { kind: CoreOuterAliasKind::Type, count, index },
        wasmparser::ModuleTypeDeclaration::Import(i) =>
            ModuleTypeDeclaration::Import { module: i.module.to_string(), name: i.name.to_string(), ty: conv_core_type_ref(i.ty) },
    }
}

/// Converts a component type.
#[verifier::external_body]
fn conv_comp_type<'a>(t: wasmparser::ComponentType<'a>) -> ComponentType {
    match t {
        wasmparser::ComponentType::Defined(d) => ComponentType::Defined(conv_defined(d)),
        wasmparser::ComponentType::Func(f) => ComponentType::Func(conv_func_type(f)),
        wasmparser::ComponentType::Component(decls) =>
            ComponentType::Component(decls.into_vec().into_iter().map(conv_comp_decl).collect()),
        wasmparser::ComponentType::Instance(decls) =>
            ComponentType::Instance(decls.into_vec().into_iter().map(conv_inst_decl).collect()),
        wasmparser::ComponentType::Resource { rep, dtor } => ComponentType::Resource { rep: conv_core_val(rep), dtor },
    }
}

/// Converts a declaration of a component type.
#[verifier::external_body]
fn conv_comp_decl<'a>(d: wasmparser::ComponentTypeDeclaration<'a>) -> ComponentTypeDeclaration {
    match d {
        wasmparser::ComponentTypeDeclaration::CoreType(t) => ComponentTypeDeclaration::CoreType(conv_core_type(t)),
        wasmparser::ComponentTypeDeclaration::Type(t) => ComponentTypeDeclaration::Type(conv_comp_type(t)),
        wasmparser::ComponentTypeDeclaration::Alias(a) => ComponentTypeDeclaration::Alias(conv_alias(a)),
        wasmparser::ComponentTypeDeclaration::Export { name, ty } =>
            ComponentTypeDeclaration::Export { name: name.name.to_string(), ty: conv_type_ref(ty) },
        wasmparser::ComponentTypeDeclaration::Import(i) => ComponentTypeDeclaration::Import(conv_import(i)),
    }
}

/// Converts a declaration of an instance type.
#[verifier::external_body]
fn conv_inst_decl<'a>(d: wasmparser::InstanceTypeDeclaration<'a>) -> InstanceTypeDeclaration {
    match d {
        wasmparser::InstanceTypeDeclaration::CoreType(t) => InstanceTypeDeclaration::CoreType(conv_core_type(t)),
        wasmparser::InstanceTypeDeclaration::Type(t) => InstanceTypeDeclaration::Type(conv_comp_type(t)),
        wasmparser::InstanceTypeDeclaration::Alias(a) => InstanceTypeDeclaration::Alias(conv_alias(a)),
        wasmparser::InstanceTypeDeclaration::Export { name, ty } =>
            InstanceTypeDeclaration::Export { name: name.name.to_string(), ty: conv_type_ref(ty) },
    }
}

/// Converts a component function type.
#[verifier::external_body]
fn conv_func_type<'a>(f: wasmparser::ComponentFuncType<'a>) -> ComponentFuncType {
    ComponentFuncType {
        async_: f.async_,
        params: f.params.into_vec().into_iter().map(|(n, t)| (n.to_string(), conv_val(t))).collect(),
        result: f.result.map(conv_val),
    }
}

/// Converts a case of a variant type.
#[verifier::external_body]
fn conv_case<'a>(c: wasmparser::VariantCase<'a>) -> VariantCase {
    VariantCase { name: c.name.to_string(), ty: c.ty.map(conv_val) }
}

/// Converts a list of names.
#[verifier::external_body]
fn conv_names<'a>(names: Box<[&'a str]>) -> Vec<String> {
    names.into_vec().into_iter().map(|n| n.to_string()).collect()
}

/// Converts a defined type: compound types.
#[verifier::external_body]
fn conv_defined<'a>(d: wasmparser::ComponentDefinedType<'a>) -> ComponentDefinedType {
    match d {
        wasmparser::ComponentDefinedType::Record(fields) =>
            ComponentDefinedType::Record(fields.into_vec().into_iter().map(|(n, t)| (n.to_string(), conv_val(t))).collect()),
        wasmparser::ComponentDefinedType::Variant(cases) =>
            ComponentDefinedType::Variant(cases.into_vec().into_iter().map(conv_case).collect()),
        wasmparser::ComponentDefinedType::Tuple(ts) => ComponentDefinedType::Tuple(ts.into_vec().into_iter().map(conv_val).collect()),
        wasmparser::ComponentDefinedType::Flags(names) => ComponentDefinedType::Flags(conv_names(names)),
        wasmparser::ComponentDefinedType::Enum(names) => ComponentDefinedType::Enum(conv_names(names)),
        wasmparser::ComponentDefinedType::Result { ok, err } =>
            ComponentDefinedType::Result { ok: ok.map(conv_val), err: err.map(conv_val) },
        other => conv_defined_simple(other),
    }
}

/// Converts a defined type: primitives, handles and types over one value
/// type.
#[verifier::external_body]
fn conv_defined_simple<'a>(d: wasmparser::ComponentDefinedType<'a>) -> ComponentDefinedType {
    match d {
        wasmparser::ComponentDefinedType::Primitive(p) => ComponentDefinedType::Primitive(p),
        wasmparser::ComponentDefinedType::List(t) => ComponentDefinedType::List(conv_val(t)),
        wasmparser::ComponentDefinedType::Map(k, v) => ComponentDefinedType::MapOf(conv_val(k), conv_val(v)),
        wasmparser::ComponentDefinedType::FixedLengthList(t, n) => ComponentDefinedType::FixedLengthList(conv_val(t), n),
        wasmparser::ComponentDefinedType::Option(t) => ComponentDefinedType::Option(conv_val(t)),
        wasmparser::ComponentDefinedType::Own(i) => ComponentDefinedType::Own(i),
        wasmparser::ComponentDefinedType::Borrow(i) => ComponentDefinedType::Borrow(i),
        wasmparser::ComponentDefinedType::Future(t) => ComponentDefinedType::Future(t.map(conv_val)),
        wasmparser::ComponentDefinedType::Stream(t) => ComponentDefinedType::Stream(t.map(conv_val)),
        other => conv_defined(other),
    }
}

} // verus!
