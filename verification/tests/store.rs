//! The sharded actor store: insert, lookup, replace, remove — and the bulk
//! insert-then-find-everything exercise.

use devtools_server::store::ActorStore;

#[test]
fn insert_then_get() {
    let mut store: ActorStore<u64> = ActorStore::new();
    store.insert("walker1".to_owned(), 11);
    store.insert("node2".to_owned(), 22);
    assert_eq!(store.get("walker1"), Some(&11));
    assert_eq!(store.get("node2"), Some(&22));
    assert_eq!(store.get("node3"), None);
}

#[test]
fn insert_replaces_existing_binding() {
    let mut store: ActorStore<u64> = ActorStore::new();
    store.insert("thread0".to_owned(), 1);
    store.insert("thread0".to_owned(), 2);
    assert_eq!(store.get("thread0"), Some(&2));
}

#[test]
fn take_removes_the_binding() {
    let mut store: ActorStore<u64> = ActorStore::new();
    store.insert("object5".to_owned(), 5);
    assert_eq!(store.take("object5"), Some(5));
    assert_eq!(store.get("object5"), None);
    assert_eq!(store.take("object5"), None);
}

#[test]
fn ten_thousand_distinct_identifiers_all_found_once() {
    // The store's concurrency comes from per-shard locking around these
    // operations; here the sharding itself is exercised: ten thousand
    // distinct identifiers spread over every shard, each found exactly
    // once with its own handler.
    let mut store: ActorStore<u64> = ActorStore::new();
    for i in 0..10_000u64 {
        store.insert(format!("node{i}"), i);
    }
    for i in 0..10_000u64 {
        assert_eq!(store.get(&format!("node{i}")), Some(&i));
    }
    // A second pass still finds each exactly once: taking each binding
    // succeeds once and then misses.
    for i in 0..10_000u64 {
        let id = format!("node{i}");
        assert_eq!(store.take(&id), Some(i));
        assert_eq!(store.get(&id), None);
    }
}

