//! Tests of encoding components back into binaries.

use wirm::collect::ComponentItem;
use wirm::component::Component;
use wirm::items::CanonicalFunction;
use wirm::kinds::CoreExternKind;
use wirm::payload::Error;

fn parsed(wat: &str) -> Component {
    Component::parse(&wat::parse_str(wat).expect("WAT parse failed"), false, false).unwrap()
}

fn valid(bytes: &[u8]) {
    let mut v = wasmparser::Validator::new_with_features(wasmparser::WasmFeatures::all());
    v.validate_all(bytes).expect("the encoded binary is not valid");
}

const LIFTED: &str = r#"(component
    (core module $m (func (export "f") (result i32) i32.const 1))
    (core instance $i (instantiate $m))
    (alias core export $i "f" (core func $f))
    (type $t (func (result u32)))
    (func $g (type $t) (canon lift (core func $f)))
    (export "g" (func $g)))"#;

#[test]
fn a_parsed_component_encodes_to_a_valid_binary_with_the_same_items() {
    let comp = parsed(LIFTED);
    let bytes = comp.encode().unwrap();
    valid(&bytes);
    let back = Component::parse(&bytes, false, false).unwrap();
    assert_eq!(back.modules.len(), 1);
    assert_eq!(back.instances.len(), 1);
    assert_eq!(back.alias.items.len(), 1);
    assert_eq!(back.component_types.items.len(), 1);
    assert_eq!(back.canons.items.len(), 1);
    assert_eq!(back.exports.len(), 1);
    assert_eq!(back.exports[0].name, "g");
    assert_eq!(back.modules[0].bytes, comp.modules[0].bytes);
}

#[test]
fn encoding_twice_gives_the_same_bytes() {
    let comp = parsed(LIFTED);
    let once = comp.encode().unwrap();
    let twice = Component::parse(&once, false, false).unwrap().encode().unwrap();
    assert_eq!(once, twice);
}

#[test]
fn an_item_added_later_is_written_before_what_refers_to_it_with_its_new_index() {
    let mut comp = parsed(
        r#"(component
            (core module $m (func (export "a")) (func (export "b")))
            (core instance (instantiate $m))
            (type (func)))"#,
    );
    comp.add_canon_func(CanonicalFunction::Lift { core_func_index: 1, type_index: 0, options: vec![] });
    comp.add_alias_core_instance_export(CoreExternKind::Func, 0, "a".to_string());
    comp.add_alias_core_instance_export(CoreExternKind::Func, 0, "b".to_string());
    let bytes = comp.encode().unwrap();
    let back = Component::parse(&bytes, false, false).unwrap();
    valid(&bytes);
    assert_eq!(back.alias.items.len(), 2);
    assert!(matches!(back.canons.items[0], CanonicalFunction::Lift { core_func_index: 0, type_index: 0, .. }));
    let plan = back.collect_root();
    let pos = |f: fn(&ComponentItem) -> bool| plan.items.iter().position(f).unwrap();
    assert!(pos(|i| matches!(i, ComponentItem::Alias { .. })) < pos(|i| matches!(i, ComponentItem::CanonicalFunc { .. })));
}

#[test]
fn nested_components_and_type_bodies_are_encoded() {
    let comp = parsed(
        r#"(component
            (type $i (instance
                (type $r (record (field "a" u32) (field "b" string)))
                (export "r" (type $rr (eq $r)))
                (type $f (func (param "x" $rr) (result (list u8))))
                (export "f" (func (type $f)))))
            (import "iface" (instance (type $i)))
            (component
                (type (variant (case "a") (case "b" u32)))
                (alias outer 1 0 (type))
                (import "j" (instance (type 1))))
            (core type (module (import "m" "f" (func)) (export "g" (func)))))"#,
    );
    let bytes = comp.encode().unwrap();
    valid(&bytes);
    let back = Component::parse(&bytes, false, false).unwrap();
    assert_eq!(back.components.len(), 1);
    assert_eq!(back.components[0].alias.items.len(), 1);
    assert_eq!(back.core_types.len(), 1);
    assert_eq!(back.imports[0].name, "iface");
    assert_eq!(back.encode().unwrap(), bytes);
}

#[test]
fn a_reference_to_no_item_is_an_error() {
    let mut comp = parsed("(component)");
    comp.add_canon_func(CanonicalFunction::Lower { func_index: 3, options: vec![] });
    assert!(matches!(comp.encode(), Err(Error::UnassignedReference)));
}

#[test]
fn a_built_in_without_a_binary_form_is_not_encodable() {
    let mut comp = parsed("(component)");
    comp.add_canon_func(CanonicalFunction::Builtin(wirm::items::BuiltinOp::Other));
    assert!(matches!(comp.encode(), Err(Error::NotEncodable)));
}

#[test]
fn an_added_defined_type_is_encoded_with_its_reference() {
    let mut comp = parsed("(component (type (record (field \"a\" u32))))");
    comp.add_component_type(wirm::items::ComponentType::Defined(wirm::items::ComponentDefinedType::List(
        wirm::items::ComponentValType::Type(0),
    )));
    let bytes = comp.encode().unwrap();
    valid(&bytes);
    let back = Component::parse(&bytes, false, false).unwrap();
    assert_eq!(back.component_types.items.len(), 2);
    assert!(matches!(
        back.component_types.items[1],
        wirm::items::ComponentType::Defined(wirm::items::ComponentDefinedType::List(wirm::items::ComponentValType::Type(0)))
    ));
}
