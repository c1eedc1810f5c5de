use vulcan::store::MemStore;

#[test]
fn empty_store_has_nothing() {
    let store = MemStore::new();
    assert!(store.load(&String::from("anything")).is_none());
}

#[test]
fn save_then_load_returns_value() {
    let mut store = MemStore::new();
    let key = String::from("vulcan:127.0.0.1:8000:universe");
    store.save(&key, vec![1, 2, 3]);
    assert_eq!(store.load(&key), Some(vec![1, 2, 3]));
}

#[test]
fn save_overwrites_earlier_value() {
    let mut store = MemStore::new();
    let key = String::from("k");
    store.save(&key, vec![1]);
    store.save(&key, vec![2]);
    assert_eq!(store.load(&key), Some(vec![2]));
}

#[test]
fn keys_are_independent() {
    let mut store = MemStore::new();
    let first = String::from("vulcan:a:universe");
    let second = String::from("vulcan:b:universe");
    store.save(&first, vec![10]);
    store.save(&second, vec![20]);
    assert_eq!(store.load(&first), Some(vec![10]));
    assert_eq!(store.load(&second), Some(vec![20]));
    store.erase(&first);
    assert!(store.load(&first).is_none());
    assert_eq!(store.load(&second), Some(vec![20]));
}

#[test]
fn erase_is_idempotent() {
    let mut store = MemStore::new();
    let key = String::from("k");
    store.save(&key, vec![5]);
    store.erase(&key);
    assert!(store.load(&key).is_none());
    store.erase(&key);
    assert!(store.load(&key).is_none());
}
