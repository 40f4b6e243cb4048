use tiny_game_framework::Registry;

#[test]
fn new_registry_is_empty() {
    let registry: Registry<u32> = Registry::new();
    assert_eq!(registry.len(), 0);
    assert!(!registry.contains_key("a"));
    assert_eq!(registry.get("a"), None);
}

#[test]
fn insert_then_get() {
    let mut registry: Registry<u32> = Registry::new();
    assert_eq!(registry.insert("a", 1), None);
    assert_eq!(registry.insert("b", 2), None);
    assert_eq!(registry.len(), 2);
    assert!(registry.contains_key("a"));
    assert_eq!(registry.get("a"), Some(&1));
    assert_eq!(registry.get("b"), Some(&2));
    assert_eq!(registry.get("c"), None);
}

#[test]
fn insert_on_a_known_name_replaces_in_place() {
    let mut registry: Registry<u32> = Registry::new();
    registry.insert("a", 1);
    registry.insert("b", 2);
    assert_eq!(registry.insert("a", 3), Some(1));
    assert_eq!(registry.len(), 2);
    assert_eq!(registry.name_at(0), "a");
    assert_eq!(registry.item_at(0), &3);
    assert_eq!(registry.name_at(1), "b");
    assert_eq!(registry.item_at(1), &2);
}

#[test]
fn remove_hands_the_item_back_and_keeps_the_order() {
    let mut registry: Registry<u32> = Registry::new();
    registry.insert("a", 1);
    registry.insert("b", 2);
    registry.insert("c", 3);
    assert_eq!(registry.remove("b"), Some(2));
    assert_eq!(registry.remove("b"), None);
    assert_eq!(registry.len(), 2);
    assert_eq!(registry.name_at(0), "a");
    assert_eq!(registry.name_at(1), "c");
    assert_eq!(registry.item_at(1), &3);
    assert!(!registry.contains_key("b"));
}

#[test]
fn get_mut_changes_the_item_in_place() {
    let mut registry: Registry<u32> = Registry::new();
    registry.insert("a", 1);
    registry.insert("b", 2);
    *registry.get_mut("b").unwrap() = 20;
    assert_eq!(registry.get("b"), Some(&20));
    assert_eq!(registry.get("a"), Some(&1));
    assert!(registry.get_mut("zz").is_none());
}

#[test]
fn item_at_mut_changes_the_item_in_place() {
    let mut registry: Registry<u32> = Registry::new();
    registry.insert("a", 1);
    registry.insert("b", 2);
    *registry.item_at_mut(0) += 10;
    assert_eq!(registry.get("a"), Some(&11));
    assert_eq!(registry.get("b"), Some(&2));
}

#[test]
fn names_are_told_apart_exactly() {
    let mut registry: Registry<u32> = Registry::new();
    registry.insert("light", 1);
    registry.insert("light1", 2);
    registry.insert("Light", 3);
    registry.insert("", 4);
    assert_eq!(registry.len(), 4);
    assert_eq!(registry.get("light"), Some(&1));
    assert_eq!(registry.get("light1"), Some(&2));
    assert_eq!(registry.get("Light"), Some(&3));
    assert_eq!(registry.get(""), Some(&4));
}
