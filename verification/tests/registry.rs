use async_bulkhead::Bulkhead;
use async_bulkhead::BulkheadRegistry;
use async_bulkhead::Bulkheads;
use std::time::Duration;

fn bulkhead(calls: usize, millis: u64) -> Bulkhead {
    Bulkhead::builder()
        .max_concurrent_calls(calls)
        .max_wait_duration(Duration::from_millis(millis))
        .build()
        .unwrap()
}

#[test]
fn new_registry_is_empty() {
    let registry = BulkheadRegistry::new();
    assert!(registry.get("db").is_none());
    assert!(registry.get("").is_none());
    let registry = BulkheadRegistry::default();
    assert!(registry.get("db").is_none());
}

#[test]
fn registered_bulkhead_is_found() {
    let mut registry = BulkheadRegistry::new();
    registry.register(String::from("db"), bulkhead(4, 30));
    let found = registry.get("db").unwrap();
    assert_eq!(found.remaining_calls(), 4);
    assert_eq!(found.max_wait_duration(), Duration::from_millis(30));
}

#[test]
fn unknown_name_is_absent() {
    let mut registry = BulkheadRegistry::new();
    registry.register(String::from("db"), bulkhead(4, 30));
    assert!(registry.get("unknown").is_none());
    assert!(registry.get("DB").is_none());
    assert!(registry.get("db ").is_none());
}

#[test]
fn found_bulkhead_is_the_registered_gate() {
    let gate = bulkhead(2, 30);
    let mut registry = BulkheadRegistry::new();
    registry.register(String::from("db"), gate.clone());
    let rt = tokio::runtime::Builder::new_current_thread().build().unwrap();
    rt.block_on(async {
        let permit = registry.get("db").unwrap().acquire().await.unwrap();
        assert_eq!(gate.remaining_calls(), 1);
        assert_eq!(registry.get("db").unwrap().remaining_calls(), 1);
        drop(permit);
        assert_eq!(gate.remaining_calls(), 2);
    });
}

#[test]
fn registering_again_replaces() {
    let old = bulkhead(2, 30);
    let mut registry = BulkheadRegistry::new();
    registry.register(String::from("db"), old.clone());
    let kept = registry.get("db").unwrap().clone();
    registry.register(String::from("db"), bulkhead(5, 40));

    let found = registry.get("db").unwrap();
    assert_eq!(found.remaining_calls(), 5);
    assert_eq!(found.max_wait_duration(), Duration::from_millis(40));

    let rt = tokio::runtime::Builder::new_current_thread().build().unwrap();
    rt.block_on(async {
        let permit = kept.acquire().await.unwrap();
        assert_eq!(old.remaining_calls(), 1);
        assert_eq!(kept.remaining_calls(), 1);
        assert_eq!(registry.get("db").unwrap().remaining_calls(), 5);
        drop(permit);
        assert_eq!(old.remaining_calls(), 2);
    });
}

#[test]
fn names_do_not_disturb_each_other() {
    let mut registry = BulkheadRegistry::new();
    registry
        .register(String::from("db"), bulkhead(1, 10))
        .register(String::from("cache"), bulkhead(2, 20))
        .register(String::from("queue"), bulkhead(3, 30));
    assert_eq!(registry.get("db").unwrap().remaining_calls(), 1);
    assert_eq!(registry.get("cache").unwrap().remaining_calls(), 2);
    assert_eq!(registry.get("queue").unwrap().remaining_calls(), 3);
    registry.register(String::from("cache"), bulkhead(8, 20));
    assert_eq!(registry.get("db").unwrap().remaining_calls(), 1);
    assert_eq!(registry.get("cache").unwrap().remaining_calls(), 8);
    assert_eq!(registry.get("queue").unwrap().remaining_calls(), 3);
}

#[test]
fn register_hands_the_registry_back() {
    let mut registry = BulkheadRegistry::new();
    let same = registry.register(String::from("db"), bulkhead(1, 10));
    assert_eq!(same.get("db").unwrap().remaining_calls(), 1);
}

#[test]
fn the_short_name_is_the_same_registry() {
    let mut registry = Bulkheads::new();
    registry.register(String::from("db"), bulkhead(6, 10));
    let registry: BulkheadRegistry = registry;
    assert_eq!(registry.get("db").unwrap().remaining_calls(), 6);
}
