//! Tests of the encoding plan of a component.

use wirm::collect::ComponentItem;
use wirm::component::Component;
use wirm::items::{CanonicalFunction, ComponentDefinedType, ComponentType};
use wirm::idx_spaces::Space;
use wirm::kinds::CoreExternKind;
use wirm::refs::{Depth, IndexedRef};

fn parsed(wat: &str) -> Component {
    let b = wat::parse_str(wat).expect("WAT parse failed");
    Component::parse(&b, false, false).expect("component parse failed")
}

#[test]
fn items_are_planned_in_section_order() {
    let comp = parsed(
        r#"(component
            (type (func))
            (import "f" (func (type 0)))
            (export "g" (func 0)))"#,
    );
    let plan = comp.collect_root();
    assert_eq!(plan.items.len(), 3);
    assert!(matches!(plan.items[0], ComponentItem::CompType { idx: 0, subitem_plan: None }));
    assert!(matches!(plan.items[1], ComponentItem::Import { idx: 0 }));
    assert!(matches!(plan.items[2], ComponentItem::Export { idx: 0 }));
}

#[test]
fn an_item_added_later_is_planned_before_what_refers_to_it() {
    let mut comp = parsed("(component (type (func)))");
    comp.add_canon_func(CanonicalFunction::Lift { core_func_index: 0, type_index: 0, options: vec![] });
    comp.add_alias_core_instance_export(CoreExternKind::Func, 0, "f".to_string());
    let plan = comp.collect_root();
    assert_eq!(plan.items.len(), 3);
    assert!(matches!(plan.items[0], ComponentItem::CompType { idx: 0, .. }));
    assert!(matches!(plan.items[1], ComponentItem::Alias { idx: 0 }));
    assert!(matches!(plan.items[2], ComponentItem::CanonicalFunc { idx: 0 }));
}

#[test]
fn nested_components_carry_their_own_plans() {
    let comp = parsed("(component (component (type (func))) (core module))");
    let plan = comp.collect_root();
    assert_eq!(plan.items.len(), 2);
    match &plan.items[0] {
        ComponentItem::Component { idx, plan: inner } => {
            assert_eq!(*idx, 0);
            assert_eq!(inner.items.len(), 1);
            assert!(matches!(inner.items[0], ComponentItem::CompType { idx: 0, subitem_plan: None }));
        }
        other => panic!("expected a nested component, got {other:?}"),
    }
    assert!(matches!(plan.items[1], ComponentItem::Module { idx: 0 }));
}

#[test]
fn scoped_types_plan_their_declarations_in_order() {
    let comp = parsed(
        r#"(component
            (type (component (type (func)) (import "x" (func (type 0)))))
            (core type (module (import "m" "f" (func)))))"#,
    );
    let plan = comp.collect_root();
    assert_eq!(plan.items.len(), 2);
    match &plan.items[0] {
        ComponentItem::CompType { idx: 0, subitem_plan: Some(sub) } => {
            let order: Vec<(usize, bool)> = sub.order().iter().map(|(i, p)| (*i, p.is_some())).collect();
            assert_eq!(order, vec![(0, false), (1, false)]);
        }
        other => panic!("expected a component type with its declarations, got {other:?}"),
    }
    match &plan.items[1] {
        ComponentItem::CoreType { idx: 0, subitem_plan: Some(sub) } => {
            let order: Vec<(usize, bool)> = sub.order().iter().map(|(i, p)| (*i, p.is_some())).collect();
            assert_eq!(order, vec![(0, false), (1, false)]);
        }
        other => panic!("expected a module type with its declarations, got {other:?}"),
    }
}

#[test]
fn actual_ids_follow_the_plan() {
    let mut comp = parsed("(component (type (func)))");
    comp.add_canon_func(CanonicalFunction::Lift { core_func_index: 1, type_index: 0, options: vec![] });
    comp.add_alias_core_instance_export(CoreExternKind::Func, 0, "a".to_string());
    comp.add_alias_core_instance_export(CoreExternKind::Func, 0, "b".to_string());
    let plan = comp.collect_root();
    assert_eq!(plan.items.len(), 4);
    assert!(matches!(plan.items[1], ComponentItem::Alias { idx: 1 }));
    assert!(matches!(plan.items[2], ComponentItem::CanonicalFunc { idx: 0 }));
    assert!(matches!(plan.items[3], ComponentItem::Alias { idx: 0 }));
    let ids = comp.assign_indices(&plan).ids;
    let core_func = |index: u32| IndexedRef { depth: Depth::default(), space: Space::CoreFunc, index };
    assert_eq!(ids.lookup_actual_id_or_panic(comp.space_id, &core_func(1)), 0);
    assert_eq!(ids.lookup_actual_id_or_panic(comp.space_id, &core_func(0)), 1);
    let comp_func = IndexedRef { depth: Depth::default(), space: Space::CompFunc, index: 0 };
    assert_eq!(ids.lookup_actual_id_or_panic(comp.space_id, &comp_func), 0);
}

#[test]
fn the_plan_of_a_parsed_component_lists_every_item_once() {
    let comp = parsed(
        r#"(component
            (core module)
            (core instance (instantiate 0))
            (type (func))
            (import "f" (func (type 0)))
            (alias core export 0 "m" (core func))
            (export "g" (func 0))
            (component))"#,
    );
    let plan = comp.collect_root();
    let total = comp.modules.len()
        + comp.instances.len()
        + comp.component_types.items.len()
        + comp.imports.len()
        + comp.alias.items.len()
        + comp.exports.len()
        + comp.components.len();
    assert_eq!(total, 7);
    assert_eq!(plan.items.len(), total);
}

#[test]
fn an_outer_alias_puts_the_enclosing_item_before_the_nested_component() {
    let mut comp = parsed("(component (component (alias outer 1 0 (type))))");
    comp.add_component_type(ComponentType::Defined(ComponentDefinedType::Own(0)));
    let plan = comp.collect_root();
    assert_eq!(plan.items.len(), 2);
    assert!(matches!(plan.items[0], ComponentItem::CompType { idx: 0, .. }));
    assert!(matches!(plan.items[1], ComponentItem::Component { idx: 0, .. }));
}

#[test]
fn a_nested_component_gets_actual_ids_in_its_own_scope() {
    let comp = parsed("(component (type (func)) (component (type (func)) (type (func))))");
    let plan = comp.collect_root();
    let ids = comp.assign_indices(&plan);
    assert_eq!(ids.nested.len(), plan.items.len());
    let ty = |index: u32| IndexedRef { depth: Depth::default(), space: Space::CompType, index };
    assert_eq!(ids.ids.lookup_actual_id_or_panic(comp.space_id, &ty(0)), 0);
    let pos = plan.items.iter().position(|it| matches!(it, ComponentItem::Component { .. })).unwrap();
    assert!(ids.nested.iter().enumerate().all(|(i, n)| n.is_some() == (i == pos)));
    let inner = ids.nested[pos].as_ref().unwrap();
    let sub = &comp.components[0];
    assert_eq!(inner.ids.lookup_actual_id_or_panic(sub.space_id, &ty(0)), 0);
    assert_eq!(inner.ids.lookup_actual_id_or_panic(sub.space_id, &ty(1)), 1);
}

#[test]
fn fixing_a_canonical_function_writes_the_actual_ids() {
    let mut comp = parsed("(component (type (func)))");
    comp.add_canon_func(CanonicalFunction::Lift { core_func_index: 1, type_index: 0, options: vec![] });
    comp.add_alias_core_instance_export(CoreExternKind::Func, 0, "a".to_string());
    comp.add_alias_core_instance_export(CoreExternKind::Func, 0, "b".to_string());
    let plan = comp.collect_root();
    let ids = comp.assign_indices(&plan).ids;
    let fixed = wirm::fix::fix_canon(&comp.canons.items[0], &ids, comp.space_id);
    assert!(matches!(fixed, CanonicalFunction::Lift { core_func_index: 0, type_index: 0, .. }), "got {fixed:?}");
    let lower = CanonicalFunction::Lower {
        func_index: 0,
        options: vec![wirm::items::CanonicalOption::UTF8, wirm::items::CanonicalOption::Realloc(0)],
    };
    let fixed = wirm::fix::fix_canon(&lower, &ids, comp.space_id);
    let CanonicalFunction::Lower { func_index: 0, options } = fixed else {
        panic!("expected a lowering, got {fixed:?}");
    };
    assert_eq!(options, vec![wirm::items::CanonicalOption::UTF8, wirm::items::CanonicalOption::Realloc(1)]);
}
