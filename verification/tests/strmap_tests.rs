use pygrab_ll::strmap::StrMap;

#[test]
fn new_map_is_empty() {
    let m: StrMap<u32> = StrMap::new();
    assert_eq!(m.len(), 0);
    assert!(m.is_empty());
    assert_eq!(m.get("a"), None);
    assert!(!m.contains_key("a"));
}

#[test]
fn insert_keeps_insertion_order() {
    let mut m: StrMap<u32> = StrMap::new();
    m.insert("b".to_string(), 1);
    m.insert("a".to_string(), 2);
    m.insert("c".to_string(), 3);
    assert_eq!(m.len(), 3);
    assert_eq!(m.key_at(0), "b");
    assert_eq!(m.key_at(1), "a");
    assert_eq!(m.key_at(2), "c");
    assert_eq!(*m.value_at(1), 2);
}

#[test]
fn insert_under_existing_key_replaces_in_place() {
    let mut m: StrMap<u32> = StrMap::new();
    m.insert("b".to_string(), 1);
    m.insert("a".to_string(), 2);
    m.insert("b".to_string(), 3);
    assert_eq!(m.len(), 2);
    assert_eq!(m.key_at(0), "b");
    assert_eq!(*m.value_at(0), 3);
    assert_eq!(m.get("b"), Some(&3));
    assert_eq!(m.get("a"), Some(&2));
}

#[test]
fn find_gives_the_position() {
    let mut m: StrMap<u32> = StrMap::new();
    m.insert("x".to_string(), 10);
    m.insert("y".to_string(), 20);
    assert_eq!(m.find("y"), Some(1));
    assert_eq!(m.find("x"), Some(0));
    assert_eq!(m.find("z"), None);
    assert!(m.contains_key("y"));
}

#[test]
fn keys_are_case_sensitive() {
    let mut m: StrMap<u32> = StrMap::new();
    m.insert("Key".to_string(), 1);
    m.insert("key".to_string(), 2);
    assert_eq!(m.len(), 2);
    assert_eq!(m.get("Key"), Some(&1));
    assert_eq!(m.get("key"), Some(&2));
    assert_eq!(m.as_entries().len(), 2);
}
