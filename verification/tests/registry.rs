use novel_store::registry::Registry;

fn key(text: &str) -> String {
    text.to_string()
}

#[test]
fn new_registry_is_empty() {
    let registry: Registry<u32> = Registry::new();
    assert_eq!(registry.len(), 0);
    assert!(registry.keys().is_empty());
    assert!(!registry.contains_key(&key("a")));
    assert_eq!(registry.get(&key("a")), None);
}

#[test]
fn insert_adds_an_entry_and_returns_nothing() {
    let mut registry: Registry<u32> = Registry::new();
    assert_eq!(registry.insert(key("a"), 1), None);
    assert_eq!(registry.len(), 1);
    assert!(registry.contains_key(&key("a")));
    assert_eq!(registry.get(&key("a")), Some(&1));
}

#[test]
fn upsert_twice_leaves_one_entry_with_the_second_value() {
    let mut registry: Registry<u32> = Registry::new();
    registry.insert(key("other"), 7);
    assert_eq!(registry.insert(key("id"), 1), None);
    assert_eq!(registry.insert(key("id"), 2), Some(1));
    assert_eq!(registry.len(), 2);
    assert_eq!(registry.get(&key("id")), Some(&2));
    assert_eq!(registry.get(&key("other")), Some(&7));
    let ids = registry.keys();
    assert_eq!(ids.iter().filter(|id| id.as_str() == "id").count(), 1);
}

#[test]
fn upsert_of_the_same_value_is_idempotent() {
    let mut registry: Registry<u32> = Registry::new();
    registry.insert(key("id"), 5);
    registry.insert(key("id"), 5);
    assert_eq!(registry.len(), 1);
    assert_eq!(registry.get(&key("id")), Some(&5));
}

#[test]
fn keys_lists_each_identifier_once() {
    let mut registry: Registry<u32> = Registry::new();
    registry.insert(key("a"), 1);
    registry.insert(key("b"), 2);
    registry.insert(key("a"), 3);
    let mut ids = registry.keys();
    ids.sort();
    assert_eq!(ids, vec![key("a"), key("b")]);
}

#[test]
fn remove_hands_back_the_value_once() {
    let mut registry: Registry<u32> = Registry::new();
    registry.insert(key("a"), 1);
    registry.insert(key("b"), 2);
    registry.insert(key("c"), 3);
    assert_eq!(registry.remove(&key("b")), Some(2));
    assert_eq!(registry.remove(&key("b")), None);
    assert_eq!(registry.len(), 2);
    assert!(!registry.contains_key(&key("b")));
    assert_eq!(registry.get(&key("a")), Some(&1));
    assert_eq!(registry.get(&key("c")), Some(&3));
    let mut ids = registry.keys();
    ids.sort();
    assert_eq!(ids, vec![key("a"), key("c")]);
}

#[test]
fn remove_of_an_absent_key_changes_nothing() {
    let mut registry: Registry<u32> = Registry::new();
    registry.insert(key("a"), 1);
    assert_eq!(registry.remove(&key("zzz")), None);
    assert_eq!(registry.len(), 1);
    assert_eq!(registry.get(&key("a")), Some(&1));
}

#[test]
fn get_mut_changes_one_entry_in_place() {
    let mut registry: Registry<u32> = Registry::new();
    registry.insert(key("a"), 1);
    registry.insert(key("b"), 2);
    match registry.get_mut(&key("a")) {
        Some(value) => *value = 10,
        None => panic!("entry a is there"),
    }
    assert!(registry.get_mut(&key("nope")).is_none());
    assert_eq!(registry.get(&key("a")), Some(&10));
    assert_eq!(registry.get(&key("b")), Some(&2));
    assert_eq!(registry.len(), 2);
}

#[test]
fn keys_are_case_sensitive_and_exact() {
    let mut registry: Registry<u32> = Registry::new();
    registry.insert(key("Scene"), 1);
    registry.insert(key("scene"), 2);
    registry.insert(key(""), 3);
    assert_eq!(registry.len(), 3);
    assert_eq!(registry.get(&key("Scene")), Some(&1));
    assert_eq!(registry.get(&key("scene")), Some(&2));
    assert_eq!(registry.get(&key("")), Some(&3));
    assert_eq!(registry.get(&key("scen")), None);
}

#[test]
fn clone_is_a_separate_registry_with_the_same_entries() {
    let mut registry: Registry<String> = Registry::new();
    registry.insert(key("a"), key("one"));
    registry.insert(key("b"), key("two"));
    let mut copy = registry.clone();
    assert_eq!(copy.len(), 2);
    assert_eq!(copy.get(&key("a")), Some(&key("one")));
    assert_eq!(copy.get(&key("b")), Some(&key("two")));
    copy.insert(key("a"), key("changed"));
    copy.remove(&key("b"));
    assert_eq!(registry.get(&key("a")), Some(&key("one")));
    assert_eq!(registry.get(&key("b")), Some(&key("two")));
    assert_eq!(registry.len(), 2);
}
