use wifi_android_connect_lib::address_cache::AddressCache;

#[test]
fn a_new_cache_is_empty() {
    let cache = AddressCache::new();
    assert!(!cache.contains_key(""));
    assert!(!cache.contains_key("1.2.3.4"));
    assert_eq!(cache.get("1.2.3.4"), None);
}

#[test]
fn insert_records_an_address() {
    let mut cache = AddressCache::new();
    cache.insert("1.2.3.4".to_string(), "1.2.3.4:5555".to_string());
    assert!(cache.contains_key("1.2.3.4"));
    assert_eq!(cache.get("1.2.3.4"), Some(&"1.2.3.4:5555".to_string()));
    assert!(!cache.contains_key("1.2.3.5"));
    assert!(!cache.contains_key("1.2.3"));
    assert_eq!(cache.get("1.2.3.5"), None);
}

#[test]
fn insert_keeps_the_other_entries() {
    let mut cache = AddressCache::new();
    cache.insert("a".to_string(), "a:1".to_string());
    cache.insert("b".to_string(), "b:2".to_string());
    cache.insert("c".to_string(), "c:3".to_string());
    assert_eq!(cache.get("a"), Some(&"a:1".to_string()));
    assert_eq!(cache.get("b"), Some(&"b:2".to_string()));
    assert_eq!(cache.get("c"), Some(&"c:3".to_string()));
}

#[test]
fn insert_replaces_the_address_of_an_ip() {
    let mut cache = AddressCache::new();
    cache.insert("a".to_string(), "a:1".to_string());
    cache.insert("b".to_string(), "b:2".to_string());
    cache.insert("a".to_string(), "a:9".to_string());
    assert_eq!(cache.get("a"), Some(&"a:9".to_string()));
    assert_eq!(cache.get("b"), Some(&"b:2".to_string()));
}

#[test]
fn the_empty_ip_is_an_ip_like_another() {
    let mut cache = AddressCache::new();
    cache.insert(String::new(), ":1".to_string());
    assert!(cache.contains_key(""));
    assert_eq!(cache.get(""), Some(&":1".to_string()));
    assert!(!cache.contains_key(" "));
}
