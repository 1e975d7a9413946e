use waft::registry::Registry;

#[test]
fn a_name_is_held_once() {
    let mut registry = Registry::new();
    assert!(registry.try_join("alice"));
    assert!(!registry.try_join("alice"));
    assert!(!registry.try_join("alice"));
    assert!(registry.contains("alice"));
}

#[test]
fn an_empty_name_is_rejected() {
    let mut registry = Registry::new();
    assert!(!registry.try_join(""));
    assert!(!registry.contains(""));
}

#[test]
fn names_are_held_side_by_side() {
    let mut registry = Registry::new();
    assert!(registry.try_join("alice"));
    assert!(registry.try_join("bob"));
    assert!(registry.try_join("Alice"));
    assert!(registry.contains("alice"));
    assert!(registry.contains("bob"));
    assert!(!registry.contains("carol"));
}

#[test]
fn leave_frees_the_name() {
    let mut registry = Registry::new();
    assert!(registry.try_join("alice"));
    assert!(registry.try_join("bob"));
    registry.leave("alice");
    assert!(!registry.contains("alice"));
    assert!(registry.contains("bob"));
    assert!(registry.try_join("alice"));
}

#[test]
fn leave_of_an_absent_name_changes_nothing() {
    let mut registry = Registry::new();
    registry.leave("alice");
    assert!(registry.try_join("bob"));
    registry.leave("alice");
    registry.leave("alice");
    assert!(registry.contains("bob"));
    assert!(!registry.contains("alice"));
}

#[test]
fn a_rejected_join_does_not_take_the_name_from_its_holder() {
    let mut registry = Registry::new();
    assert!(registry.try_join("alice"));
    assert!(!registry.try_join("alice"));
    registry.leave("alice");
    assert!(!registry.contains("alice"));
}
