use chrondb::{
    resource_identity, same_identity, Broker, ReleaseAction, ResourceId, FFI_THREAD_STACK_SIZE,
};

fn id(primary: &str, secondary: &str) -> ResourceId {
    ResourceId { primary: primary.to_string(), secondary: secondary.to_string() }
}

#[test]
fn test_ffi_thread_stack_size() {
    assert_eq!(FFI_THREAD_STACK_SIZE, 64 * 1024 * 1024);
}

#[test]
fn test_resource_identity_prefers_canonical_paths() {
    let r = resource_identity(
        "./data",
        Some("/tmp/data".to_string()),
        "./index",
        Some("/tmp/index".to_string()),
    );
    assert_eq!(r.primary, "/tmp/data");
    assert_eq!(r.secondary, "/tmp/index");
}

#[test]
fn test_resource_identity_falls_back_to_literal() {
    let r = resource_identity("/not/yet/there", None, "/also/missing", None);
    assert_eq!(r.primary, "/not/yet/there");
    assert_eq!(r.secondary, "/also/missing");
}

#[test]
fn test_same_identity_compares_both_paths() {
    assert!(same_identity(&id("a", "b"), &id("a", "b")));
    assert!(!same_identity(&id("a", "b"), &id("a", "c")));
    assert!(!same_identity(&id("a", "b"), &id("x", "b")));
}

#[test]
fn test_acquire_same_identity_shares_worker() {
    let mut broker = Broker::new();
    let key = id("/tmp/data", "/tmp/index");

    assert!(broker.lookup(&key).is_none());
    let w1 = broker.register(key.clone());

    let i = broker.lookup(&key).expect("registered identity must be found");
    let w2 = broker.retain_at(i);
    assert_eq!(w1, w2, "both handles must be backed by the same worker");
    assert_eq!(broker.live_workers(), 1, "no duplicate worker for one identity");
}

#[test]
fn test_distinct_identities_get_distinct_workers() {
    let mut broker = Broker::new();
    let w1 = broker.register(id("/tmp/a-data", "/tmp/a-index"));
    let w2 = broker.register(id("/tmp/b-data", "/tmp/b-index"));
    assert_ne!(w1, w2);
    assert_eq!(broker.live_workers(), 2);
}

#[test]
fn test_release_last_handle_shuts_worker_down() {
    let mut broker = Broker::new();
    let key = id("/tmp/data", "/tmp/index");
    let w = broker.register(key.clone());

    let i = broker.lookup(&key).unwrap();
    let action = broker.release(i);
    assert_eq!(action, ReleaseAction::ShutDown(w));
    assert!(broker.lookup(&key).is_none(), "a closing worker is removed before new lookups");
}

#[test]
fn test_dropping_one_handle_keeps_the_other_working() {
    let mut broker = Broker::new();
    let key = id("/tmp/data", "/tmp/index");
    let w = broker.register(key.clone());

    let i = broker.lookup(&key).unwrap();
    let w_again = broker.retain_at(i);
    assert_eq!(w, w_again);

    let action = broker.release(i);
    assert_eq!(action, ReleaseAction::KeepAlive, "another handle still shares the worker");

    let j = broker.lookup(&key).expect("the other handle's worker must still be registered");
    assert_eq!(broker.retain_at(j), w, "the surviving handle still reaches the same worker");
}

#[test]
fn test_failed_startup_registers_nothing() {
    let mut broker = Broker::new();
    let key = id("/tmp/data", "/tmp/index");
    assert!(broker.lookup(&key).is_none());
    assert_eq!(broker.live_workers(), 0);

    let w = broker.register(key.clone());
    assert_eq!(w, 0);
    assert_eq!(broker.live_workers(), 1);
}
