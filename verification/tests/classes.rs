use quilt_domain::classes::builtin_classes;
use quilt_domain::classes::types::Class;
use quilt_domain::classes::validator::{check_inheritance_cycle, check_required_properties, required_properties_of};
use quilt_domain::entities::block::Block;
use quilt_domain::errors::domain_error::DomainError;
use quilt_domain::value_objects::{PropertyValue, Uuid};

#[test]
fn test_class_builder() {
    let id = Uuid::new_v4();
    let class = Class::new(id, "custom-class", "Custom Class").with_icon("📋").user_defined();
    assert_eq!(class.db_ident, "custom-class");
    assert_eq!(class.title, "Custom Class");
    assert!(class.user_defined);
    assert!(!class.builtin);
    assert_eq!(class.icon, Some("📋".to_string()));
}

fn task_class() -> Class {
    let root_id = builtin_classes::root_id();
    Class::new(Uuid::new_v4(), "task", "Task").with_extends(root_id)
}

#[test]
fn test_class_inheritance() {
    let class = task_class();
    assert!(class.extends.is_some());
    assert_eq!(class.extends.unwrap(), builtin_classes::root_id());
}

#[test]
fn test_builtin_classes() {
    let classes = builtin_classes::all();
    assert_eq!(classes.len(), 7);
    let root = builtin_classes::root();
    assert_eq!(root.db_ident, "root");
    assert!(root.builtin);
    assert!(root.extends.is_none());
    let journal = builtin_classes::journal();
    assert!(journal.extends.is_some());
}

#[test]
fn test_validate_block_with_no_classes() {
    let block = Block::default();
    assert!(check_required_properties(&block, &Vec::new()).is_ok());
}

#[test]
fn test_check_inheritance_cycle_self_reference() {
    let id = Uuid::new_v4();
    let result = check_inheritance_cycle(id, id, &Vec::new());
    assert!(result.is_err());
    if let Err(DomainError::CircularInheritance { class_id, message }) = result {
        assert_eq!(class_id, id);
        assert!(message.contains("cannot extend itself"));
    }
}

#[test]
fn extending_an_ancestor_is_a_cycle() {
    let child = Uuid::from_u128(1);
    let parent = Uuid::from_u128(2);
    let grand = Uuid::from_u128(3);
    // `parent` extends `grand`: linking child -> parent closes no cycle.
    assert!(check_inheritance_cycle(child, parent, &vec![parent, grand]).is_ok());
    // `parent` already extends `child`: linking child -> parent closes one.
    assert!(check_inheritance_cycle(child, parent, &vec![parent, child]).is_err());
    // `grand` is an ancestor of the child, but extending it again is no cycle.
    assert!(check_inheritance_cycle(child, grand, &vec![grand]).is_ok());
    match check_inheritance_cycle(grand, child, &vec![child, parent, grand]) {
        Err(DomainError::CircularInheritance { class_id, message }) => {
            assert_eq!(class_id, grand);
            assert!(message.contains("circular inheritance"));
        }
        other => panic!("expected CircularInheritance, got {other:?}"),
    }
}

#[test]
fn a_missing_required_property_is_reported() {
    let prop = Uuid::from_u128(0x0000_0000_0000_0000_0000_0000_0000_00aa);
    let mut block = Block::default();
    match check_required_properties(&block, &vec![prop]) {
        Err(DomainError::MissingRequiredProperty { property_id }) => assert_eq!(property_id, prop),
        other => panic!("expected MissingRequiredProperty, got {other:?}"),
    }
    block.properties.insert(prop.to_string(), PropertyValue::string("x"));
    assert!(check_required_properties(&block, &vec![prop]).is_ok());
}

#[test]
fn required_properties_follow_the_ancestry() {
    let a = Uuid::from_u128(10);
    let b = Uuid::from_u128(11);
    let p1 = Uuid::from_u128(20);
    let p2 = Uuid::from_u128(21);
    let table = vec![(a, vec![p1]), (b, vec![p2, p1])];
    let req = required_properties_of(&vec![vec![a, b]], &table);
    assert!(req.contains(&p1));
    assert!(req.contains(&p2));
}
