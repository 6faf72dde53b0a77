//! Tests of parsing components and resolving their references.

use std::collections::HashMap;
use wirm::component::Component;
use wirm::items::{BuiltinOp, CanonicalFunction, CoreValType, TypedOp};
use wirm::refs::GetItemRef;
use wirm::resolve::ResolvedItem;
use wirm::section::ComponentSection;
use wasm_encoder::{
    Alias, ComponentAliasSection, ComponentExportKind, ComponentImportSection, ComponentTypeRef,
    ComponentTypeSection, InstanceType, TypeBounds,
};

// ============================================================
// Helpers
// ============================================================

fn bytes(wat: &str) -> Vec<u8> {
    wat::parse_str(wat).expect("WAT parse failed")
}

fn parsed(b: &[u8]) -> Component {
    Component::parse(b, false, false).unwrap()
}

/// Resolve the ref carried by `comp.exports[export_idx]` against `comp`'s own index space.
fn resolve_export<'a>(comp: &'a Component, export_idx: usize) -> ResolvedItem<'a> {
    let ref_ = comp.exports[export_idx].get_item_ref();
    comp.resolve(&ref_.ref_)
}

// ============================================================
// Component::resolve — basic cases
// ============================================================

/// A type declared directly in a component resolves to `CompType` at the correct index.
#[test]
fn test_resolve_type_ref_from_export() {
    let b = bytes(
        r#"(component
      (type $a u32)    (;; index 0 ;)
      (type $b u8)     (;; index 1 ;)
      (export "a" (type $a))
      (export "b" (type $b))
    )"#,
    );
    let comp = parsed(&b);

    assert!(matches!(resolve_export(&comp, 0), ResolvedItem::CompType(0, _)));
    assert!(matches!(resolve_export(&comp, 1), ResolvedItem::CompType(1, _)));
}

/// A type that enters the index space via an import resolves to `Import`.
#[test]
fn test_resolve_imported_type_ref() {
    let b = bytes(
        r#"(component
      (import "t" (type (sub resource)))
      (export "t-out" (type 0))
    )"#,
    );
    let comp = parsed(&b);

    assert!(matches!(resolve_export(&comp, 0), ResolvedItem::Import(0, _)));
}

/// A type that enters the index space via an outer alias resolves to `Alias`.
#[test]
fn test_resolve_alias_ref() {
    let b = bytes(
        r#"(component
      (type $outer u32)
      (component $inner
        (alias outer 1 0 (type))  (;; aliases outer type 0 → inner type 0 ;)
        (export "t" (type 0))
      )
    )"#,
    );
    let outer = parsed(&b);
    let inner = &outer.components[0];

    assert!(matches!(resolve_export(inner, 0), ResolvedItem::Alias(0, _)));
}

/// Resolving refs on a nested component uses that component's own index space.
#[test]
fn test_resolve_on_inner_component() {
    let b = bytes(
        r#"(component
      (component $inner
        (type $a u32)   (;; inner type 0 ;)
        (type $b u8)    (;; inner type 1 ;)
        (export "a" (type $a))
        (export "b" (type $b))
      )
    )"#,
    );
    let outer = parsed(&b);
    let inner = &outer.components[0];

    assert!(matches!(resolve_export(inner, 0), ResolvedItem::CompType(0, _)));
    assert!(matches!(resolve_export(inner, 1), ResolvedItem::CompType(1, _)));
}

/// Two nested components each have their own independent type index spaces.
#[test]
fn test_resolve_on_two_independent_inner_components() {
    let b = bytes(
        r#"(component
      (component $first
        (type $x u32)   (;; first's type 0 ;)
        (export "x" (type $x))
      )
      (component $second
        (type $p u8)    (;; second's type 0 ;)
        (type $q u16)   (;; second's type 1 ;)
        (export "p" (type $p))
        (export "q" (type $q))
      )
    )"#,
    );
    let outer = parsed(&b);
    let first = &outer.components[0];
    let second = &outer.components[1];

    assert!(matches!(resolve_export(first, 0), ResolvedItem::CompType(0, _)));
    assert!(matches!(resolve_export(second, 0), ResolvedItem::CompType(0, _)));
    assert!(matches!(resolve_export(second, 1), ResolvedItem::CompType(1, _)));
}

/// `get_type_of_exported_lift_func` returns the function type of a lifted
/// canonical function.
#[test]
fn test_get_type_of_exported_lift_func() {
    let b = bytes(
        r#"(component
      (core module $m
        (func (export "add") (param i32 i32) (result i32)
          local.get 0
          local.get 1
          i32.add
        )
      )
      (core instance $mi (instantiate $m))
      (type $add-t (func (param "a" u32) (param "b" u32) (result u32)))
      (func $add (type $add-t) (canon lift (core func $mi "add")))
      (export "add" (func $add))
    )"#,
    );
    let comp = parsed(&b);

    let ty = comp.get_type_of_exported_lift_func(&comp.exports[0]);
    assert!(ty.is_some(), "should find the type of the exported lift func");
    assert!(
        matches!(ty.unwrap(), wirm::items::ComponentType::Func(_)),
        "resolved type should be ComponentType::Func"
    );
}

// ============================================================
// Section count invariant
// ============================================================

/// Build a component binary with `n` separate single-item alias sections.
fn build_binary_with_separate_alias_sections(n: usize) -> Vec<u8> {
    let names: Vec<String> = (0..n).map(|i| format!("r{i}")).collect();

    let mut comp = wasm_encoder::Component::new();

    {
        let mut types = ComponentTypeSection::new();
        let mut inst = InstanceType::new();
        for name in &names {
            inst.export(name, ComponentTypeRef::Type(TypeBounds::SubResource));
        }
        types.instance(&inst);
        comp.section(&types);
    }

    {
        let mut imports = ComponentImportSection::new();
        imports.import("wasi:http/types", ComponentTypeRef::Instance(0));
        comp.section(&imports);
    }

    for name in &names {
        let mut aliases = ComponentAliasSection::new();
        aliases.alias(Alias::InstanceExport {
            instance: 0,
            kind: ComponentExportKind::Type,
            name,
        });
        comp.section(&aliases);
    }

    {
        let mut types = ComponentTypeSection::new();
        types.instance(&InstanceType::new());
        comp.section(&types);
    }

    {
        let mut imports = ComponentImportSection::new();
        imports.import("wasi:http/handler", ComponentTypeRef::Instance((n + 1) as u32));
        comp.section(&imports);
    }

    comp.finish()
}

/// Count component-section payloads of each kind by walking the binary
/// independently with wasmparser.
fn count_binary_sections_by_kind(bytes: &[u8]) -> HashMap<&'static str, usize> {
    let mut counts: HashMap<&'static str, usize> = Default::default();
    for payload in wasmparser::Parser::new(0).parse_all(bytes) {
        let key = match payload.expect("parse") {
            wasmparser::Payload::ComponentTypeSection(_) => "type",
            wasmparser::Payload::ComponentImportSection(_) => "import",
            wasmparser::Payload::ComponentAliasSection(_) => "alias",
            wasmparser::Payload::ComponentInstanceSection(_) => "comp_instance",
            wasmparser::Payload::ComponentExportSection(_) => "comp_export",
            wasmparser::Payload::ComponentCanonicalSection(_) => "canon",
            wasmparser::Payload::CoreTypeSection(_) => "core_type",
            wasmparser::Payload::InstanceSection(_) => "core_instance",
            wasmparser::Payload::ModuleSection { .. } => "module",
            wasmparser::Payload::ComponentSection { .. } => "subcomp",
            wasmparser::Payload::ComponentStartSection { .. } => "start",
            wasmparser::Payload::CustomSection(_) => "custom",
            _ => continue,
        };
        *counts.entry(key).or_insert(0) += 1;
    }
    counts
}

/// Count `comp.sections` entries by kind in a parsed component.
fn count_wirm_sections_by_kind(comp: &Component) -> HashMap<&'static str, usize> {
    let mut counts: HashMap<&'static str, usize> = Default::default();
    for (_, section) in comp.sections.iter() {
        let key = match section {
            ComponentSection::ComponentType => "type",
            ComponentSection::ComponentImport => "import",
            ComponentSection::Alias => "alias",
            ComponentSection::ComponentInstance => "comp_instance",
            ComponentSection::ComponentExport => "comp_export",
            ComponentSection::Canon => "canon",
            ComponentSection::CoreType => "core_type",
            ComponentSection::CoreInstance => "core_instance",
            ComponentSection::Module => "module",
            ComponentSection::Component => "subcomp",
            ComponentSection::ComponentStartSection => "start",
            ComponentSection::CustomSection => "custom",
        };
        *counts.entry(key).or_insert(0) += 1;
    }
    counts
}

/// Parse `bytes` and assert that for every section kind the number of
/// `comp.sections` entries equals the number of binary payloads of that kind.
fn assert_section_count_invariant(bytes: &[u8]) -> Component {
    let comp = Component::parse(bytes, false, false).expect("wirm parse");
    let binary_counts = count_binary_sections_by_kind(bytes);
    let wirm_counts = count_wirm_sections_by_kind(&comp);
    assert_eq!(
        binary_counts, wirm_counts,
        "wirm's comp.sections counts must match the binary's payload counts \
         exactly — each binary section payload should produce one wirm entry"
    );
    comp
}

#[test]
fn section_count_invariant_separate_alias_sections() {
    for n in [1usize, 3, 7] {
        let bytes = build_binary_with_separate_alias_sections(n);
        assert_section_count_invariant(&bytes);
        assert_eq!(
            count_binary_sections_by_kind(&bytes).get("alias"),
            Some(&n),
            "expected {n} separate alias section payloads"
        );
    }
}

#[test]
fn section_count_invariant_mixed_leaf_and_instance_types() {
    let b = bytes(
        r#"(component
            (type (record (field "x" string)))
            (type (record (field "y" 0)))
            (type (instance
                (alias outer 1 1 (type))
                (export "thing" (type (eq 0))))))"#,
    );

    let comp = assert_section_count_invariant(&b);

    assert_eq!(count_binary_sections_by_kind(&b).get("type"), Some(&1));

    let type_entry = comp
        .sections
        .iter()
        .find(|(_, s)| matches!(s, ComponentSection::ComponentType))
        .expect("type entry");
    assert_eq!(
        type_entry.0, 3,
        "merged type section should have count=3 even when one item has a subscope"
    );
}

#[test]
fn section_count_invariant_merged_alias_section_from_wat() {
    let b = bytes(
        r#"(component
            (type (instance
                (export "r0" (type (sub resource)))
                (export "r1" (type (sub resource)))
                (export "r2" (type (sub resource)))))
            (import "wasi:http/types" (instance (type 0)))
            (alias export 0 "r0" (type))
            (alias export 0 "r1" (type))
            (alias export 0 "r2" (type)))"#,
    );

    let comp = assert_section_count_invariant(&b);

    assert_eq!(count_binary_sections_by_kind(&b).get("alias"), Some(&1));

    let alias_entry = comp
        .sections
        .iter()
        .find(|(_, s)| matches!(s, ComponentSection::Alias))
        .expect("alias entry");
    assert_eq!(alias_entry.0, 3, "merged alias section should have count=3");
}

#[test]
fn section_count_invariant_empty_import_section() {
    let mut comp = wasm_encoder::Component::new();
    comp.section(&ComponentImportSection::new());
    let mut types = ComponentTypeSection::new();
    types.defined_type().primitive(wasm_encoder::PrimitiveValType::U32);
    comp.section(&types);
    let mut imports = ComponentImportSection::new();
    imports.import("t", ComponentTypeRef::Type(TypeBounds::Eq(0)));
    comp.section(&imports);

    let bytes = comp.finish();
    let comp = assert_section_count_invariant(&bytes);

    assert_eq!(comp.sections.len(), 3, "empty + type + import = 3 entries");
    assert_eq!(
        comp.sections[0],
        (0, ComponentSection::ComponentImport),
        "empty import section must still produce a (0, ComponentImport) entry"
    );
    assert!(matches!(comp.sections[1].1, ComponentSection::ComponentType));
    assert!(matches!(comp.sections[2].1, ComponentSection::ComponentImport));
}

#[test]
fn canonical_built_ins_keep_their_slots_and_flags() {
    let mut canons = wasm_encoder::CanonicalFunctionSection::new();
    canons.context_get(wasm_encoder::ValType::I32, 3);
    canons.context_set(wasm_encoder::ValType::I32, 2);
    canons.subtask_cancel(true);
    canons.stream_cancel_read(0, true);
    canons.future_cancel_write(0, false);
    let mut c = wasm_encoder::Component::new();
    c.section(&canons);
    let comp = parsed(&c.finish());
    let items = &comp.canons.items;
    assert_eq!(items.len(), 5);
    assert!(matches!(items[0], CanonicalFunction::Builtin(BuiltinOp::ContextGet { ty: CoreValType::I32, slot: 3 })));
    assert!(matches!(items[1], CanonicalFunction::Builtin(BuiltinOp::ContextSet { ty: CoreValType::I32, slot: 2 })));
    assert!(matches!(items[2], CanonicalFunction::Builtin(BuiltinOp::SubtaskCancel { async_: true })));
    assert!(matches!(items[3], CanonicalFunction::Typed { op: TypedOp::StreamCancelRead { async_: true }, ty: 0 }));
    assert!(matches!(items[4], CanonicalFunction::Typed { op: TypedOp::FutureCancelWrite { async_: false }, ty: 0 }));
}

#[test]
fn a_module_section_running_past_the_end_is_an_error() {
    // A component header, then a module section that declares 100 bytes
    // and holds none.
    let mut b = wat::parse_str("(component)").unwrap();
    b.truncate(8);
    b.extend_from_slice(&[0x01, 100]);
    let r = Component::parse(&b, false, false);
    assert!(matches!(r, Err(wirm::payload::Error::SectionOutOfBounds { start: 10, end: 110 })), "got {:?}", r.err());
}
