use webapi::store::{str_eq, KvStore};

#[test]
fn put_then_get_returns_the_value() {
    let mut store: KvStore<String> = KvStore::new();
    store.put("k1".to_string(), "v1".to_string());
    assert_eq!(store.get("k1"), Some(&"v1".to_string()));
    assert_eq!(store.get("k2"), None);
}

#[test]
fn put_overwrites_the_old_value() {
    let mut store: KvStore<String> = KvStore::new();
    store.put("k".to_string(), "old".to_string());
    store.put("k".to_string(), "new".to_string());
    assert_eq!(store.get("k"), Some(&"new".to_string()));
}

#[test]
fn delete_removes_only_the_named_key() {
    let mut store: KvStore<u64> = KvStore::new();
    store.put("a".to_string(), 1);
    store.put("b".to_string(), 2);
    store.delete("a");
    assert_eq!(store.get("a"), None);
    assert_eq!(store.get("b"), Some(&2));
    store.delete("absent");
    assert_eq!(store.get("b"), Some(&2));
}

#[test]
fn str_eq_compares_contents() {
    assert!(str_eq("abc", "abc"));
    assert!(!str_eq("abc", "abd"));
    assert!(!str_eq("abc", "ab"));
    assert!(str_eq("", ""));
}
