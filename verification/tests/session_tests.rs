use phisher::session::SessionRegistry;

#[test]
fn new_registry_is_empty() {
    let registry = SessionRegistry::new();
    assert!(!registry.contains(&"anything".to_string()));
    assert!(!registry.contains(&"".to_string()));
}

#[test]
fn inserted_identifier_is_visible_to_later_reads() {
    let mut registry = SessionRegistry::new();
    let id = "4dfe0bbd-2e31-4e39-9eb2-a541bbd24f42".to_string();
    assert!(!registry.contains(&id));
    registry.insert(id.clone());
    assert!(registry.contains(&id));
    // A second reader of the same registry state sees it too.
    assert!(registry.contains(&id));
}

#[test]
fn insertion_does_not_disturb_other_identifiers() {
    let mut registry = SessionRegistry::new();
    let first = "first-session".to_string();
    let second = "second-session".to_string();
    registry.insert(first.clone());
    registry.insert(second.clone());
    assert!(registry.contains(&first));
    assert!(registry.contains(&second));
    assert!(!registry.contains(&"third-session".to_string()));
}

#[test]
fn reinserting_an_identifier_keeps_it_valid() {
    let mut registry = SessionRegistry::new();
    let id = "session".to_string();
    registry.insert(id.clone());
    registry.insert(id.clone());
    assert!(registry.contains(&id));
}
