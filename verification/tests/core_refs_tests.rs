//! Tests of the references core types make.

use wirm::component::Component;
use wirm::idx_spaces::Space;
use wirm::items::{
    CompositeInner, CoreCompositeType, CoreFieldType, CoreHeapType, CoreRecGroup, CoreStorageType,
    CoreSubType, CoreType, CoreTypeIndex, CoreTypeRef, CoreValType, ModuleTypeDeclaration,
};
use wirm::kinds::CoreOuterAliasKind;
use wirm::refs::{Depth, GetTypeRefs, IndexedRef, RefKind, RefRole, ReferencedIndices};

fn core_type_ref(index: u32) -> IndexedRef {
    IndexedRef { depth: Depth::default(), space: Space::CoreType, index }
}

fn ref_to(index: u32) -> CoreValType {
    CoreValType::Ref { nullable: true, heap: CoreHeapType::Concrete(CoreTypeIndex::Module(index)) }
}

#[test]
fn a_parsed_function_type_refers_through_its_parameters() {
    let b = wat::parse_str("(component (core type (func)) (core type (func (param (ref null 0)) (result i32))))")
        .expect("WAT parse failed");
    let comp = Component::parse(&b, false, false).expect("component parse failed");
    assert_eq!(comp.core_types.len(), 2);
    let group = match &comp.core_types[1] {
        CoreType::Rec(g) => g,
        other => panic!("expected a recursion group, got {other:?}"),
    };
    assert_eq!(group.types.len(), 1);
    let composite = &group.types[0].composite_type;
    assert_eq!(
        composite.referenced_indices(),
        vec![RefKind { role: RefRole::Param(0), ref_: core_type_ref(0) }]
    );
    // A core type lists what its types refer to, not their parameters.
    assert!(comp.core_types[1].referenced_indices().is_empty());
}

#[test]
fn supertypes_and_fields_are_referenced_in_order() {
    let sub = CoreSubType {
        is_final: false,
        supertype_idxs: vec![CoreTypeIndex::Module(3)],
        composite_type: CoreCompositeType {
            inner: CompositeInner::Struct(vec![
                CoreFieldType { element_type: CoreStorageType::I8, mutable: false },
                CoreFieldType { element_type: CoreStorageType::Val(ref_to(1)), mutable: true },
            ]),
            shared: false,
            descriptor_idx: None,
            describes_idx: None,
        },
    };
    let group = CoreType::Rec(CoreRecGroup { explicit: true, types: vec![sub] });
    assert_eq!(
        group.get_type_refs(),
        vec![
            RefKind { role: RefRole::Type, ref_: core_type_ref(3) },
            RefKind { role: RefRole::Type, ref_: core_type_ref(1) },
        ]
    );
}

#[test]
fn descriptors_are_referenced_in_the_component_type_space() {
    let composite = CoreCompositeType {
        inner: CompositeInner::Cont(CoreTypeIndex::Module(2)),
        shared: false,
        descriptor_idx: Some(CoreTypeIndex::Module(4)),
        describes_idx: Some(CoreTypeIndex::Module(5)),
    };
    let comp_type = |index: u32| IndexedRef { depth: Depth::default(), space: Space::CompType, index };
    assert_eq!(
        composite.get_type_refs(),
        vec![
            RefKind { role: RefRole::Type, ref_: comp_type(2) },
            RefKind { role: RefRole::Descriptor, ref_: comp_type(4) },
            RefKind { role: RefRole::Describes, ref_: comp_type(5) },
        ]
    );
}

#[test]
fn module_type_declarations_refer_outward() {
    let alias = ModuleTypeDeclaration::OuterAlias { kind: CoreOuterAliasKind::Type, count: 2, index: 7 };
    let refs = alias.get_type_refs();
    assert_eq!(refs.len(), 1);
    assert_eq!(refs[0].ref_.space, Space::CoreType);
    assert_eq!(refs[0].ref_.index, 7);
    assert_eq!(refs[0].ref_.depth.val(), 2);
    let import = ModuleTypeDeclaration::Import {
        module: "m".to_string(),
        name: "f".to_string(),
        ty: CoreTypeRef::Func(6),
    };
    assert_eq!(import.get_type_refs(), vec![RefKind { role: RefRole::Type, ref_: core_type_ref(6) }]);
}
