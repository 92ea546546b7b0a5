use term_core::table::Table;

#[test]
fn new_table_is_empty() {
    let t: Table<u32> = Table::new();
    assert_eq!(t.len(), 0);
    assert!(!t.contains_key("a"));
    assert!(t.get("a").is_none());
    assert_eq!(t.position("a"), None);
}

#[test]
fn insert_binds_and_replaces() {
    let mut t: Table<u32> = Table::new();
    assert_eq!(t.insert("a".to_string(), 1), None);
    assert_eq!(t.insert("b".to_string(), 2), None);
    assert_eq!(t.len(), 2);
    assert_eq!(t.get("a"), Some(&1));
    assert_eq!(t.get("b"), Some(&2));
    assert_eq!(t.insert("a".to_string(), 10), Some(1));
    assert_eq!(t.len(), 2);
    assert_eq!(t.get("a"), Some(&10));
    assert_eq!(t.position("a"), Some(0));
    assert_eq!(t.position("b"), Some(1));
}

#[test]
fn remove_unbinds_one_key() {
    let mut t: Table<u32> = Table::new();
    t.insert("a".to_string(), 1);
    t.insert("b".to_string(), 2);
    t.insert("c".to_string(), 3);
    assert_eq!(t.remove("b"), Some(2));
    assert_eq!(t.remove("b"), None);
    assert_eq!(t.len(), 2);
    assert_eq!(t.get("a"), Some(&1));
    assert_eq!(t.get("c"), Some(&3));
    assert_eq!(t.key_at(1), "c");
    assert_eq!(*t.value_at(1), 3);
}

#[test]
fn remove_at_hands_back_the_row() {
    let mut t: Table<u32> = Table::new();
    t.insert("a".to_string(), 1);
    t.insert("b".to_string(), 2);
    let row = t.remove_at(0);
    assert_eq!(row, ("a".to_string(), 1));
    assert_eq!(t.len(), 1);
    assert_eq!(t.key_at(0), "b");
}

#[test]
fn get_mut_changes_in_place() {
    let mut t: Table<u32> = Table::new();
    t.insert("a".to_string(), 1);
    match t.get_mut("a") {
        Some(v) => *v = 7,
        None => panic!("the key is bound"),
    }
    assert!(t.get_mut("zz").is_none());
    assert_eq!(t.get("a"), Some(&7));
    assert_eq!(t.len(), 1);
}

#[test]
fn clear_unbinds_everything() {
    let mut t: Table<u32> = Table::new();
    t.insert("a".to_string(), 1);
    t.insert("b".to_string(), 2);
    t.clear();
    assert_eq!(t.len(), 0);
    assert!(!t.contains_key("a"));
}

#[test]
fn keys_differ_by_case_and_length() {
    let mut t: Table<u32> = Table::new();
    t.insert("Key".to_string(), 1);
    t.insert("key".to_string(), 2);
    t.insert("ke".to_string(), 3);
    t.insert("".to_string(), 4);
    assert_eq!(t.len(), 4);
    assert_eq!(t.get("Key"), Some(&1));
    assert_eq!(t.get("key"), Some(&2));
    assert_eq!(t.get("ke"), Some(&3));
    assert_eq!(t.get(""), Some(&4));
}
