//! Tests of growing a component item by item.

use wirm::component::Component;
use wirm::ids::{
    AliasId, CanonFuncId, ComponentFunctionId, ComponentId, ComponentTypeId, CoreInstanceId, CoreTypeId,
    CustomSectionID, FunctionID, ModuleID,
};
use wirm::idx_spaces::Space;
use wirm::items::{
    CanonicalFunction, ComponentDefinedType, ComponentType, CoreType, CustomSection, Instance, Module,
    TypeBounds,
};
use wirm::kinds::{CompExternKind, OuterAliasKind};
use wirm::payload::Error;
use wirm::refs::{Depth, IndexedRef};
use wirm::resolve::ResolvedItem;
use wirm::section::ComponentSection;

fn parsed(wat: &str) -> Component {
    let b = wat::parse_str(wat).expect("WAT parse failed");
    Component::parse(&b, false, false).unwrap()
}

fn at(space: Space, index: u32) -> IndexedRef {
    IndexedRef { depth: Depth::default(), space, index }
}

#[test]
fn added_modules_take_consecutive_ids_and_share_a_section() {
    let mut comp = parsed("(component)");
    let a = comp.add_module(Module { bytes: vec![1] });
    let b = comp.add_module(Module { bytes: vec![2, 3] });
    assert_eq!(a, ModuleID(0));
    assert_eq!(b, ModuleID(1));
    assert_eq!(comp.sections, vec![(2, ComponentSection::Module)]);
    assert_eq!(comp.num_sections, 1);
    match comp.resolve(&at(Space::CoreModule, 1)) {
        ResolvedItem::Module(1, m) => assert_eq!(m.bytes, vec![2, 3]),
        other => panic!("expected the second module, got {other:?}"),
    }
}

#[test]
fn added_type_continues_the_parsed_numbering() {
    let mut comp = parsed("(component (type u32) (type u8))");
    assert_eq!(comp.sections, vec![(2, ComponentSection::ComponentType)]);
    let id = comp.add_component_type(ComponentType::Defined(ComponentDefinedType::Own(0)));
    assert_eq!(id, ComponentTypeId(2));
    assert_eq!(comp.sections, vec![(3, ComponentSection::ComponentType)]);
    assert!(matches!(
        comp.resolve(&at(Space::CompType, 2)),
        ResolvedItem::CompType(2, ComponentType::Defined(ComponentDefinedType::Own(0)))
    ));
}

#[test]
fn import_then_export_of_a_type() {
    let mut comp = parsed("(component)");
    let t = comp.add_import_component_type("t".to_string(), TypeBounds::SubResource);
    assert_eq!(t, ComponentTypeId(0));
    let t_out = comp.add_export_component_type("t-out".to_string(), t, None);
    assert_eq!(t_out, ComponentTypeId(1));
    assert_eq!(
        comp.sections,
        vec![(1, ComponentSection::ComponentImport), (1, ComponentSection::ComponentExport)]
    );
    match comp.resolve(&at(Space::CompType, 0)) {
        ResolvedItem::Import(0, imp) => assert_eq!(imp.name, "t"),
        other => panic!("expected the import, got {other:?}"),
    }
    match comp.resolve(&at(Space::CompType, 1)) {
        ResolvedItem::Export(1, exp) => {
            assert_eq!(exp.name, "t-out");
            assert_eq!(exp.kind, CompExternKind::Type);
            assert_eq!(exp.index, 0);
        },
        other => panic!("expected the export, got {other:?}"),
    }
}

#[test]
fn exported_component_lands_among_instances() {
    let mut comp = parsed("(component)");
    let c = comp.add_component(|_c: &mut Component| {});
    assert_eq!(c, ComponentId(0));
    let e = comp.add_export_component("c".to_string(), c, None);
    assert_eq!(e, ComponentId(0));
    assert!(matches!(comp.resolve(&at(Space::CompInst, 0)), ResolvedItem::Export(0, _)));
}

#[test]
fn alias_ids_follow_the_aliased_kind() {
    let mut comp = parsed(
        r#"(component
      (import "i" (instance (export "f" (func))))
    )"#,
    );
    let f = comp.add_alias_instance_export(CompExternKind::Func, 0, "f".to_string());
    assert_eq!(f, AliasId::ComponentFunc(ComponentFunctionId(0)));
    assert_eq!(f.unwrap_component_func(), ComponentFunctionId(0));
    let t = comp.add_alias_outer(OuterAliasKind::Type, 1, 0);
    assert_eq!(t, AliasId::ComponentType(ComponentTypeId(1)));
    assert_eq!(t.index(), 1);
    assert_eq!(comp.sections.last(), Some(&(2, ComponentSection::Alias)));
    match comp.resolve(&at(Space::CompFunc, 0)) {
        ResolvedItem::Alias(0, a) => {
            assert!(matches!(a, wirm::items::ComponentAlias::InstanceExport { instance_index: 0, .. }))
        },
        other => panic!("expected the alias, got {other:?}"),
    }
}

#[test]
fn canon_ids_follow_the_function_kind() {
    let mut comp = parsed("(component)");
    let lowered = comp.add_canon_func(CanonicalFunction::Lower { func_index: 0, options: vec![] });
    assert_eq!(lowered, CanonFuncId::Core(FunctionID(0)));
    assert_eq!(lowered.unwrap_core(), FunctionID(0));
    let lifted =
        comp.add_canon_func(CanonicalFunction::Lift { core_func_index: 0, type_index: 0, options: vec![] });
    assert_eq!(lifted, CanonFuncId::Component(ComponentFunctionId(0)));
    let dropped = comp.add_canon_func(CanonicalFunction::Resource {
        op: wirm::items::ResourceOp::Drop,
        resource: 0,
    });
    assert_eq!(dropped, CanonFuncId::Core(FunctionID(1)));
    assert_eq!(comp.sections, vec![(3, ComponentSection::Canon)]);
}

#[test]
fn core_type_and_instance_ids() {
    let mut comp = parsed("(component)");
    let t = comp.add_core_type(CoreType::Module(vec![]));
    assert_eq!(t, CoreTypeId(0));
    let i = comp.add_core_instance(Instance::FromExports(vec![]));
    assert_eq!(i, CoreInstanceId(0));
    let j = comp.add_core_instance(Instance::Instantiate { module_index: 0, args: vec![] });
    assert_eq!(j, CoreInstanceId(1));
    assert_eq!(
        comp.sections,
        vec![(1, ComponentSection::CoreType), (2, ComponentSection::CoreInstance)]
    );
}

#[test]
fn custom_sections_are_numbered_by_position() {
    let mut comp = parsed("(component)");
    let a = comp.add_custom_section(CustomSection { name: "a".to_string(), data: vec![] });
    let b = comp.add_custom_section(CustomSection { name: "b".to_string(), data: vec![9] });
    assert_eq!(a, CustomSectionID(0));
    assert_eq!(b, CustomSectionID(1));
    assert_eq!(comp.sections, vec![(2, ComponentSection::CustomSection)]);
    assert_eq!(comp.custom_sections[1].data, vec![9]);
}

#[test]
fn nested_component_filled_by_a_builder() {
    let mut comp = parsed("(component (type u32))");
    let id = comp.add_component(|c: &mut Component| {
        c.add_module(Module { bytes: vec![] });
        c.add_module(Module { bytes: vec![0] });
    });
    assert_eq!(id, ComponentId(0));
    assert_eq!(comp.components.len(), 1);
    assert_eq!(comp.components[0].modules.len(), 2);
    assert_eq!(
        comp.sections,
        vec![(1, ComponentSection::ComponentType), (1, ComponentSection::Component)]
    );
    assert!(matches!(comp.resolve(&at(Space::Comp, 0)), ResolvedItem::Component(0, _)));
}

#[test]
fn nested_component_from_bytes() {
    let mut comp = parsed("(component)");
    let inner = wat::parse_str("(component (type u32) (type u8))").unwrap();
    let id = comp.add_component_from_bytes(&inner).unwrap();
    assert_eq!(id, ComponentId(0));
    assert_eq!(comp.components[0].component_types.items.len(), 2);
    assert_ne!(comp.components[0].uid, comp.uid);
    assert_eq!(comp.sections, vec![(1, ComponentSection::Component)]);
}

#[test]
fn nested_component_from_bad_bytes_adds_nothing() {
    let mut comp = parsed("(component)");
    let r = comp.add_component_from_bytes(&[0, 1, 2, 3]);
    assert!(matches!(r, Err(Error::BinaryReader { .. })));
    assert!(comp.components.is_empty());
    assert!(comp.sections.is_empty());
}

#[test]
fn adding_items_keeps_existing_references() {
    let mut comp = parsed(
        r#"(component
      (type u32)
      (import "i" (instance (export "f" (func))))
      (type u8)
    )"#,
    );
    // Types 0 and 2 are the defined types, type 1 is the instance type.
    assert!(matches!(comp.resolve(&at(Space::CompType, 2)), ResolvedItem::CompType(2, ComponentType::Defined(_))));
    comp.add_import_component_type("t".to_string(), TypeBounds::Eq(0));
    comp.add_alias_outer(OuterAliasKind::Type, 1, 0);
    comp.add_module(Module { bytes: vec![] });
    assert!(matches!(comp.resolve(&at(Space::CompType, 0)), ResolvedItem::CompType(0, ComponentType::Defined(_))));
    assert!(matches!(comp.resolve(&at(Space::CompType, 1)), ResolvedItem::CompType(1, ComponentType::Instance(_))));
    assert!(matches!(comp.resolve(&at(Space::CompType, 2)), ResolvedItem::CompType(2, ComponentType::Defined(_))));
    assert!(matches!(comp.resolve(&at(Space::CompInst, 0)), ResolvedItem::Import(0, _)));
    assert!(matches!(comp.resolve(&at(Space::CompType, 3)), ResolvedItem::Import(3, _)));
    assert!(matches!(comp.resolve(&at(Space::CompType, 4)), ResolvedItem::Alias(4, _)));
}

#[test]
fn each_type_of_a_recursion_group_takes_a_core_type_id() {
    let mut comp = parsed("(component (core rec (type (func)) (type (func))))");
    assert_eq!(comp.core_types.len(), 1);
    let t = comp.add_core_type(CoreType::Module(vec![]));
    assert_eq!(t, CoreTypeId(2));
    assert_eq!(comp.sections, vec![(2, ComponentSection::CoreType)]);
}
