//! Tests of index spaces, actual IDs, names and parse errors.

use wirm::assign::ActualIds;
use wirm::component::{build_component_store, Component};
use wirm::idx_spaces::{IdxSpace, IndexStore, Space, SpaceSubtype};
use wirm::index_spaces::{ExternalItemKind, IdxSpaces};
use wirm::names::Names;
use wirm::payload::Error;
use wirm::refs::{Depth, IndexedRef};
use wirm::section::ComponentSection;

fn at(space: Space, index: u32) -> IndexedRef {
    IndexedRef { depth: Depth::default(), space, index }
}

#[test]
fn assumed_ids_are_handed_out_in_order_per_space() {
    let mut store = IndexStore::new();
    let scope = store.new_scope();
    assert_eq!(store.assign_assumed_id(&scope, &Space::CompType, &ComponentSection::ComponentType, 0), Some(0));
    assert_eq!(store.assign_assumed_id(&scope, &Space::CompType, &ComponentSection::ComponentImport, 0), Some(1));
    assert_eq!(store.assign_assumed_id(&scope, &Space::CompFunc, &ComponentSection::Canon, 0), Some(0));
    assert_eq!(store.assign_assumed_id(&scope, &Space::NA, &ComponentSection::CustomSection, 0), None);
    let (sub, idx, _) = store.index_from_assumed_id(&scope, &at(Space::CompType, 1));
    assert_eq!(sub, SpaceSubtype::Import);
    assert_eq!(idx, 0);
    let (sub, idx, _) = store.index_from_assumed_id_no_cache(&scope, &at(Space::CompType, 0));
    assert_eq!(sub, SpaceSubtype::Main);
    assert_eq!(idx, 0);
}

#[test]
fn scopes_are_numbered_from_zero() {
    let mut store = IndexStore::new();
    assert_eq!(store.new_scope(), 0);
    assert_eq!(store.new_scope(), 1);
}

#[test]
fn actual_ids_count_per_scope_and_space() {
    let mut ids = ActualIds::new();
    ids.assign_actual_id(0, &Space::CompType, 7);
    ids.assign_actual_id(0, &Space::CompType, 3);
    ids.assign_actual_id(1, &Space::CompType, 7);
    assert_eq!(ids.lookup_actual_id_or_panic(0, &at(Space::CompType, 7)), 0);
    assert_eq!(ids.lookup_actual_id_or_panic(0, &at(Space::CompType, 3)), 1);
    assert_eq!(ids.lookup_actual_id_or_panic(1, &at(Space::CompType, 7)), 0);
    assert!(ids.get_scope(2).is_none());
}

#[test]
fn legacy_spaces_assign_and_find_ids() {
    let mut spaces = IdxSpaces::new();
    let first = spaces.assign_assumed_id(&ComponentSection::ComponentType, &ExternalItemKind::NA, 0);
    let second = spaces.assign_assumed_id(&ComponentSection::ComponentImport, &ExternalItemKind::CompType, 0);
    assert_eq!(first, Some(0));
    assert_eq!(second, Some(1));
    assert_eq!(spaces.assign_assumed_id(&ComponentSection::CustomSection, &ExternalItemKind::NA, 0), None);
    assert_eq!(spaces.lookup_assumed_id(&ComponentSection::ComponentImport, &ExternalItemKind::CompType, 0), 1);
    let (sub, idx) = spaces.index_from_assumed_id(&ComponentSection::ComponentImport, &ExternalItemKind::CompType, 1);
    assert_eq!(sub, SpaceSubtype::Import);
    assert_eq!(idx, 0);
    assert!(!spaces.is_encoded(&ComponentSection::ComponentType, &ExternalItemKind::NA, 0));
    spaces.reset_ids();
    spaces.assign_actual_id(&ComponentSection::ComponentImport, &ExternalItemKind::CompType, 0);
    assert_eq!(spaces.lookup_actual_id(&ComponentSection::ComponentImport, &ExternalItemKind::CompType, 1), Some(0));
    assert_eq!(spaces.visit_section(&ComponentSection::Alias, 3), 0);
    assert_eq!(spaces.visit_section(&ComponentSection::Alias, 2), 3);
}

#[test]
fn names_keep_the_last_name_given() {
    let mut names = Names::new();
    names.add(1, "one");
    names.add_all(&[(2, "two".to_string()), (1, "uno".to_string())]);
    assert_eq!(names.get(1), Some("uno"));
    assert_eq!(names.get(2), Some("two"));
    assert_eq!(names.get(3), None);
}

#[test]
fn parsed_names_are_kept() {
    let b = wat::parse_str(
        r#"(component $top
      (type $ty u32)
      (core module $m)
    )"#,
    )
    .unwrap();
    let comp = Component::parse(&b, false, false).unwrap();
    assert_eq!(comp.component_name.as_deref(), Some("top"));
    assert_eq!(comp.names.types.get(0), Some("ty"));
    assert_eq!(comp.names.core_modules.get(0), Some("m"));
}

#[test]
fn garbage_is_a_reader_error() {
    let r = Component::parse(&[1, 2, 3, 4, 5, 6, 7, 8], false, false);
    assert!(matches!(r, Err(Error::BinaryReader { .. })));
}

#[test]
fn unknown_section_is_refused() {
    let bytes = [0x00, 0x61, 0x73, 0x6d, 0x0d, 0x00, 0x01, 0x00, 0x3f, 0x00];
    let r = Component::parse(&bytes, false, false);
    assert!(matches!(r, Err(Error::UnknownSection { section_id: 0x3f })), "got {r:?}");
}

#[test]
fn core_module_is_not_a_component() {
    let b = wat::parse_str("(module (type (func)))").unwrap();
    let r = Component::parse(&b, false, false);
    assert!(matches!(r, Err(Error::UnhandledPayload(_))), "got {r:?}");
}

#[test]
fn nested_components_get_their_own_identities() {
    let b = wat::parse_str("(component (component) (component (component)))").unwrap();
    let comp = Component::parse(&b, false, false).unwrap();
    assert_eq!(comp.uid.0, 0);
    let a = comp.components[0].uid.0;
    let c = comp.components[1].uid.0;
    let d = comp.components[1].components[0].uid.0;
    assert!(a != 0 && c != 0 && d != 0 && a != c && a != d && c != d);
}

#[test]
fn the_store_finds_every_component_of_a_tree_by_its_identity() {
    let b = wat::parse_str("(component (component) (component (component)))").unwrap();
    let comp = Component::parse(&b, false, false).unwrap();
    let store = build_component_store(&comp);
    assert_eq!(store.get(&comp.uid).uid, comp.uid);
    let inner = &comp.components[1].components[0];
    let found = store.get(&inner.uid);
    assert_eq!(found.uid, inner.uid);
    assert!(found.components.is_empty());
    assert_eq!(store.get(&comp.components[1].uid).components.len(), 1);
}

#[test]
fn assumed_ids_are_handed_out_in_order_and_stay_where_they_were_put() {
    let mut sp = IdxSpace::new();
    assert_eq!(sp.assign_assumed_id(&ComponentSection::Canon, 0), 0);
    assert_eq!(sp.assign_assumed_id(&ComponentSection::Alias, 0), 1);
    assert_eq!(sp.assign_assumed_id(&ComponentSection::Canon, 0), 2);
    assert_eq!(sp.curr_id(), 3);
    assert_eq!(sp.index_from_assumed_id_no_cache(1), Some((SpaceSubtype::Alias, 0, None)));
    assert_eq!(sp.index_from_assumed_id(2), Some((SpaceSubtype::Main, 0, Some(1))));
    assert_eq!(sp.index_from_assumed_id(2), Some((SpaceSubtype::Main, 0, Some(1))));
}
