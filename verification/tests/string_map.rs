use webpage::string_map::StringMap;

#[test]
fn new_map_is_empty() {
    let map = StringMap::new();
    assert_eq!(map.len(), 0);
    assert!(map.is_empty());
    assert_eq!(map.get("a"), None);
    assert!(!map.contains_key("a"));
}

#[test]
fn insert_adds_and_overwrites() {
    let mut map = StringMap::new();
    map.insert("a".to_string(), "1".to_string());
    map.insert("b".to_string(), "2".to_string());
    map.insert("a".to_string(), "3".to_string());
    assert_eq!(map.len(), 2);
    assert!(!map.is_empty());
    assert_eq!(map.get("a"), Some(&"3".to_string()));
    assert_eq!(map.get("b"), Some(&"2".to_string()));
    assert_eq!(map.get("A"), None);
    assert!(map.contains_key("b"));
}

#[test]
fn entries_come_in_order_of_first_insertion() {
    let mut map = StringMap::new();
    map.insert("z".to_string(), "1".to_string());
    map.insert("a".to_string(), "2".to_string());
    map.insert("z".to_string(), "3".to_string());
    let (key, value) = map.entry(0);
    assert_eq!((key.as_str(), value.as_str()), ("z", "3"));
    let (key, value) = map.entry(1);
    assert_eq!((key.as_str(), value.as_str()), ("a", "2"));
}
