//! Tests of concretizing the types of imports and exports.

use wirm::component::Component;
use wirm::concrete::{ConcreteFuncType, ConcreteType, ConcreteValType};

fn bytes(wat: &str) -> Vec<u8> {
    wat::parse_str(wat).expect("WAT parse failed")
}

fn parsed(b: &[u8]) -> Component {
    Component::parse(b, false, false).unwrap()
}

// ============================================================
// concretize_import — instance type body resolution
// ============================================================

/// References inside an instance type body resolve against the body's own
/// declarations, not the component's main type index space.
#[test]
fn test_concretize_import_resolves_body_types() {
    let b = bytes(
        r#"(component
      (type (instance
        (type $elem u32)
        (type $fn-type (func (param "x" 0)))
        (export "my-func" (func (type 1)))
      ))
      (import "my-iface" (instance (type 0)))
    )"#,
    );
    let comp = parsed(&b);
    let result = comp.concretize_import("my-iface");
    assert!(
        matches!(result, Some(ConcreteType::Instance { .. })),
        "expected Some(Instance), got {result:?}"
    );
}

// ============================================================
// concretize_export — patterns
// ============================================================

fn check_concretize_export(wat: &str) {
    let b = bytes(wat);
    let comp = parsed(&b);
    let result = comp.concretize_export("iface");
    let Some(ConcreteType::Instance { funcs, .. }) = result else {
        panic!("expected Some(Instance), got {result:?}");
    };
    assert_eq!(funcs.len(), 1);
    assert_eq!(funcs[0].0, "f");
}

/// Export that resolves to an instance made of exports.
#[test]
fn concretize_export_from_exports_instance() {
    check_concretize_export(
        r#"(component
      (import "iface" (instance $imp
        (export "f" (func (param "x" u32) (result u8)))
      ))
      (alias export $imp "f" (func $fn))
      (instance $out (export "f" (func $fn)))
      (export "iface" (instance $out))
    )"#,
    )
}

/// Export that resolves to an instance of a nested shim component.
#[test]
fn concretize_export_instantiated_component() {
    check_concretize_export(
        r#"(component
      (import "iface" (instance $imp
        (export "f" (func (param "x" u32) (result u8)))
      ))
      (component $shim
        (type $sig (func (param "x" u32) (result u8)))
        (import "import-func-f" (func (type $sig)))
        (export "f" (func 0))
      )
      (alias export $imp "f" (func $fn))
      (instance $shim-inst (instantiate $shim
        (with "import-func-f" (func $fn))
      ))
      (export "iface" (instance $shim-inst))
    )"#,
    );
}

/// Export that directly re-exposes an imported instance.
#[test]
fn concretize_export_import_reexport() {
    check_concretize_export(
        r#"(component
      (import "iface" (instance $imp
        (export "f" (func (param "x" u32) (result u8)))
      ))
      (export "iface" (instance $imp))
    )"#,
    );
}

/// All three export patterns give the same function signature.
#[test]
fn concretize_export_all_patterns_same_signature() {
    fn single_func_sig(wat: &str) -> ConcreteFuncType {
        let bytes = wat::parse_str(wat).expect("WAT parse failed");
        let comp = Component::parse(&bytes, false, false).unwrap();
        let Some(ConcreteType::Instance { mut funcs, .. }) = comp.concretize_export("iface") else {
            panic!("expected Instance");
        };
        funcs.remove(0).1
    }

    let from_exports = single_func_sig(
        r#"(component
          (import "iface" (instance $imp (export "f" (func (param "x" u32)))))
          (alias export $imp "f" (func $fn))
          (instance $out (export "f" (func $fn)))
          (export "iface" (instance $out))
        )"#,
    );
    let import_reexport = single_func_sig(
        r#"(component
          (import "iface" (instance $imp (export "f" (func (param "x" u32)))))
          (export "iface" (instance $imp))
        )"#,
    );
    let shim = single_func_sig(
        r#"(component
          (import "iface" (instance $imp (export "f" (func (param "x" u32)))))
          (component $shim
            (type $sig (func (param "x" u32)))
            (import "import-func-f" (func (type $sig)))
            (export "f" (func 0))
          )
          (alias export $imp "f" (func $fn))
          (instance $shim-inst (instantiate $shim (with "import-func-f" (func $fn))))
          (export "iface" (instance $shim-inst))
        )"#,
    );

    for (label, sig) in [("from-exports", &from_exports), ("import-reexport", &import_reexport), ("shim", &shim)] {
        assert_eq!(sig.params.len(), 1, "{label}: expected 1 param, got {}", sig.params.len());
        assert!(
            sig.params[0].0 == "x"
                && matches!(sig.params[0].1, ConcreteValType::Primitive(wasmparser::PrimitiveValType::U32)),
            "{label}: expected (\"x\", Primitive(U32)), got {:?}",
            sig.params[0]
        );
        assert!(sig.result.is_none(), "{label}: expected no result");
    }
}

// ============================================================
// concretize_import — val-type coverage
// ============================================================

fn first_param_type(wat: &str) -> ConcreteValType {
    let bytes = bytes(wat);
    let comp = Component::parse(&bytes, false, false).unwrap();
    let Some(ConcreteType::Instance { funcs, .. }) = comp.concretize_import("iface") else {
        panic!("expected Instance");
    };
    funcs.into_iter().next().unwrap().1.params.into_iter().next().unwrap().1
}

#[test]
fn concretize_import_record_param() {
    let ty = first_param_type(
        r#"(component
      (type (instance
        (type $rec (record (field "a" u32) (field "b" string)))
        (type $fn (func (param "r" 0)))
        (export "f" (func (type 1)))
      ))
      (import "iface" (instance (type 0)))
    )"#,
    );
    assert!(matches!(ty, ConcreteValType::Record(_)), "expected Record, got {ty:?}");
    let ConcreteValType::Record(fields) = ty else {
        unreachable!()
    };
    assert_eq!(fields.len(), 2);
    assert!(matches!(*fields[0].1, ConcreteValType::Primitive(wasmparser::PrimitiveValType::U32)), "field 'a'");
    assert!(matches!(*fields[1].1, ConcreteValType::Primitive(wasmparser::PrimitiveValType::String)), "field 'b'");
}

#[test]
fn concretize_import_variant_param() {
    let ty = first_param_type(
        r#"(component
      (type (instance
        (type $var (variant (case "a" u32) (case "b")))
        (type $fn (func (param "v" 0)))
        (export "f" (func (type 1)))
      ))
      (import "iface" (instance (type 0)))
    )"#,
    );
    assert!(matches!(ty, ConcreteValType::Variant(_)), "expected Variant, got {ty:?}");
    let ConcreteValType::Variant(cases) = ty else {
        unreachable!()
    };
    assert_eq!(cases.len(), 2);
    assert!(cases[0].0 == "a" && cases[0].1.is_some());
    assert!(cases[1].0 == "b" && cases[1].1.is_none());
}

#[test]
fn concretize_import_list_param() {
    let ty = first_param_type(
        r#"(component
      (type (instance
        (type $lst (list u8))
        (type $fn (func (param "l" 0)))
        (export "f" (func (type 1)))
      ))
      (import "iface" (instance (type 0)))
    )"#,
    );
    assert!(matches!(ty, ConcreteValType::List(_)), "expected List, got {ty:?}");
}

#[test]
fn concretize_import_tuple_param() {
    let ty = first_param_type(
        r#"(component
      (type (instance
        (type $tup (tuple u32 string))
        (type $fn (func (param "t" 0)))
        (export "f" (func (type 1)))
      ))
      (import "iface" (instance (type 0)))
    )"#,
    );
    assert!(matches!(ty, ConcreteValType::Tuple(_)), "expected Tuple, got {ty:?}");
    let ConcreteValType::Tuple(elems) = ty else {
        unreachable!()
    };
    assert_eq!(elems.len(), 2);
}

#[test]
fn concretize_import_option_param() {
    let ty = first_param_type(
        r#"(component
      (type (instance
        (type $opt (option string))
        (type $fn (func (param "o" 0)))
        (export "f" (func (type 1)))
      ))
      (import "iface" (instance (type 0)))
    )"#,
    );
    assert!(matches!(ty, ConcreteValType::Option(_)), "expected Option, got {ty:?}");
}

#[test]
fn concretize_import_result_param() {
    let ty = first_param_type(
        r#"(component
      (type (instance
        (type $res (result u32 (error string)))
        (type $fn (func (param "r" 0)))
        (export "f" (func (type 1)))
      ))
      (import "iface" (instance (type 0)))
    )"#,
    );
    assert!(matches!(ty, ConcreteValType::Result { .. }), "expected Result, got {ty:?}");
    let ConcreteValType::Result { ok, err } = ty else {
        unreachable!()
    };
    assert!(ok.is_some(), "expected ok type");
    assert!(err.is_some(), "expected err type");
}

#[test]
fn concretize_import_flags_param() {
    let ty = first_param_type(
        r#"(component
      (type (instance
        (type $flg (flags "read" "write" "exec"))
        (type $fn (func (param "f" 0)))
        (export "f" (func (type 1)))
      ))
      (import "iface" (instance (type 0)))
    )"#,
    );
    assert!(matches!(ty, ConcreteValType::Flags(_)), "expected Flags, got {ty:?}");
    let ConcreteValType::Flags(names) = ty else {
        unreachable!()
    };
    assert_eq!(names, vec!["read", "write", "exec"]);
}

#[test]
fn concretize_import_enum_param() {
    let ty = first_param_type(
        r#"(component
      (type (instance
        (type $enm (enum "low" "medium" "high"))
        (type $fn (func (param "e" 0)))
        (export "f" (func (type 1)))
      ))
      (import "iface" (instance (type 0)))
    )"#,
    );
    assert!(matches!(ty, ConcreteValType::Enum(_)), "expected Enum, got {ty:?}");
    let ConcreteValType::Enum(variants) = ty else {
        unreachable!()
    };
    assert_eq!(variants, vec!["low", "medium", "high"]);
}

// ============================================================
// Types of functions reached through imported instances
// ============================================================

const SERVER_B: &str = r#"(component
          (component $shim
            (type $ev (variant (case "a") (case "b" u32)))
            (type $fn-type (func (param "x" u32) (result 0)))
            (import "handle" (func $h (type $fn-type)))
            (export "handle" (func $h))
          )
          (import "handle" (func $h
            (param "x" u32) (result (variant (case "a") (case "b" u32)))))
          (instance $si (instantiate $shim (with "handle" (func $h))))
          (export "my:iface@1.0" (instance $si))
        )"#;

fn exported_handle_result_is_variant(sb: &Component, ma: &Component, label: &str) {
    let Some(ConcreteType::Instance { funcs: sb_funcs, .. }) = sb.concretize_export("my:iface@1.0") else {
        panic!("server_b: expected Some(Instance)");
    };
    let Some(ConcreteType::Instance { funcs: ma_funcs, .. }) = ma.concretize_export("my:iface@1.0") else {
        panic!("{label}: expected Some(Instance)");
    };
    assert_eq!(sb_funcs.len(), 1, "server_b should export 1 function");
    assert_eq!(ma_funcs.len(), 1, "{label} should export 1 function");
    assert_eq!(sb_funcs[0].0, "handle");
    assert_eq!(ma_funcs[0].0, "handle");
    let sb_result = sb_funcs[0].1.result.as_ref();
    let ma_result = ma_funcs[0].1.result.as_ref();
    assert!(
        matches!(sb_result, Some(ConcreteValType::Variant(_))),
        "server_b result should be Variant, got {sb_result:?}"
    );
    assert!(
        matches!(ma_result, Some(ConcreteValType::Variant(_))),
        "{label} result should be Variant, got {ma_result:?}"
    );
}

/// A server-style component (exports the interface through a shim) and a
/// middleware-style one (imports the interface and re-exports it) give the
/// same signature for the shared function.
#[test]
fn server_and_middleware_concretize_to_same_func_type() {
    let server_b = bytes(SERVER_B);
    let middleware_a = bytes(
        r#"(component
          (import "my:iface@1.0" (instance $iface
            (type (variant (case "a") (case "b" u32)))
            (export "ev" (type (eq 0)))
            (type $fn (func (param "x" u32) (result 0)))
            (export "handle" (func (type $fn)))
          ))
          (export "my:iface@1.0" (instance $iface))
        )"#,
    );
    let sb = parsed(&server_b);
    let ma = parsed(&middleware_a);
    exported_handle_result_is_variant(&sb, &ma, "middleware_a");
}

/// The same, with the middleware's instance type declared at the top level.
#[test]
fn server_and_middleware_same_func_type_explicit_type_decl() {
    let server_b = bytes(SERVER_B);
    let middleware_a = bytes(
        r#"(component
          (type $iface-type (instance
            (type $var (variant (case "a") (case "b" u32)))
            (type $fn (func (param "x" u32) (result 0)))
            (export "handle" (func (type 1)))
          ))
          (import "my:iface@1.0" (instance $iface (type $iface-type)))
          (export "my:iface@1.0" (instance $iface))
        )"#,
    );
    let sb = parsed(&server_b);
    let ma = parsed(&middleware_a);
    exported_handle_result_is_variant(&sb, &ma, "middleware_a (explicit type decl)");
}

/// A parameter whose type is an alias of a type export of an imported
/// instance is concretized through that instance's type.
#[test]
fn concretize_func_param_via_alias_to_imported_instance_type_direct() {
    let b = bytes(
        r#"(component
          (import "types" (instance $types
            (type (variant (case "a") (case "b" u32)))
            (export "my-variant" (type (eq 0)))
          ))
          (alias export $types "my-variant" (type $mv))
          (type $fn-type (func (param "x" $mv)))
          (import "handle" (func (type $fn-type)))
        )"#,
    );
    let comp = parsed(&b);
    let Some(ConcreteType::Func(ft)) = comp.concretize_import("handle") else {
        panic!("expected ConcreteType::Func for 'handle' import");
    };
    assert_eq!(ft.params.len(), 1, "expected 1 param");
    assert!(
        matches!(ft.params[0].1, ConcreteValType::Variant(_)),
        "param type should be Variant (resolve_type_from_import_instance), got {:?}",
        ft.params[0].1
    );
    let ConcreteValType::Variant(cases) = &ft.params[0].1 else {
        unreachable!()
    };
    assert_eq!(cases.len(), 2);
    assert_eq!(cases[0].0, "a");
    assert!(cases[0].1.is_none());
    assert_eq!(cases[1].0, "b");
    assert!(matches!(
        cases[1].1.as_deref(),
        Some(ConcreteValType::Primitive(wasmparser::PrimitiveValType::U32))
    ));
}

// ============================================================
// Further cases
// ============================================================

#[test]
fn concretize_missing_names_give_none() {
    let b = bytes(r#"(component (type u32) (export "t" (type 0)))"#);
    let comp = parsed(&b);
    assert!(comp.concretize_import("nope").is_none());
    assert!(comp.concretize_export("nope").is_none());
}

#[test]
fn concretize_export_of_a_function_type() {
    let b = bytes(
        r#"(component
      (type $f (func (param "a" (list u8)) (result (option string))))
      (export "sig" (type $f))
    )"#,
    );
    let comp = parsed(&b);
    let Some(ConcreteType::Func(ft)) = comp.concretize_export("sig") else {
        panic!("expected a function type");
    };
    assert!(!ft.is_async);
    assert_eq!(ft.params.len(), 1);
    assert_eq!(ft.params[0].0, "a");
    assert!(matches!(ft.params[0].1, ConcreteValType::List(_)));
    assert!(matches!(ft.result, Some(ConcreteValType::Option(_))));
}

#[test]
fn concretize_named_resources_of_an_instance_type() {
    let b = bytes(
        r#"(component
      (type (instance
        (export "request" (type (sub resource)))
        (type (own 0))
        (export "owned-request" (type (eq 1)))
        (type $fn (func (param "r" 1)))
        (export "handle" (func (type $fn)))
      ))
      (import "iface" (instance (type 0)))
    )"#,
    );
    let comp = parsed(&b);
    let Some(ConcreteType::Instance { funcs, type_exports }) = comp.concretize_import("iface") else {
        panic!("expected an instance");
    };
    assert_eq!(funcs.len(), 1);
    assert_eq!(funcs[0].0, "handle");
    assert!(matches!(&funcs[0].1.params[0].1, ConcreteValType::NamedResource(n) if n == "request"));
    // A resource export carries no type reference, so only the equality
    // export is listed.
    assert_eq!(type_exports.len(), 1);
    assert_eq!(type_exports[0].0, "owned-request");
    assert!(matches!(&type_exports[0].1, ConcreteValType::NamedResource(n) if n == "request"));
}

fn list_chain(n: usize) -> Component {
    let mut wat = String::from("(component (type (list u8))");
    for i in 1..n {
        wat.push_str(&format!(" (type (list {}))", i - 1));
    }
    wat.push_str(&format!(" (type (func (param \"x\" {}))) (import \"f\" (func (type {}))))", n - 1, n));
    parsed(&bytes(&wat))
}

fn list_depth(mut ty: &ConcreteValType) -> (usize, &ConcreteValType) {
    let mut depth = 0;
    while let ConcreteValType::List(inner) = ty {
        depth += 1;
        ty = inner;
    }
    (depth, ty)
}

#[test]
fn a_short_chain_of_lists_is_followed_to_its_end() {
    let comp = list_chain(10);
    let Some(ConcreteType::Func(ft)) = comp.concretize_import("f") else {
        panic!("expected a function type");
    };
    let (depth, end) = list_depth(&ft.params[0].1);
    assert_eq!(depth, 10);
    assert!(matches!(end, ConcreteValType::Primitive(wasmparser::PrimitiveValType::U8)));
}

#[test]
fn a_chain_longer_than_the_least_step_limit_is_followed_to_its_end() {
    let comp = list_chain(1200);
    let Some(ConcreteType::Func(ft)) = comp.concretize_import("f") else {
        panic!("expected a function type");
    };
    let (depth, end) = list_depth(&ft.params[0].1);
    assert_eq!(depth, 1200);
    assert!(matches!(end, ConcreteValType::Primitive(wasmparser::PrimitiveValType::U8)));
}

#[test]
fn a_type_that_refers_to_itself_is_unresolved() {
    let comp = parsed(&bytes(r#"(component (type (list 0)) (type (func (param "x" 0))) (import "f" (func (type 1))))"#));
    let r = comp.concretize_import("f");
    assert!(matches!(r, Some(ConcreteType::Unresolved)), "got {r:?}");
}
