use proxy::cancellation::CancelMap;
use proxy::messages::CancelKeyData;

fn key(pid: i32, k: i32) -> CancelKeyData {
    CancelKeyData { backend_pid: pid, cancel_key: k }
}

#[test]
fn cancel_with_unknown_key_is_silent_noop() {
    let mut map = CancelMap::new();
    assert_eq!(map.cancel(key(1, 100)), None);
    assert!(!map.contains(key(1, 100)));
}

#[test]
fn register_then_cancel_returns_the_handle() {
    let mut map = CancelMap::new();
    assert!(map.register(key(1, 100), 11));
    assert!(map.contains(key(1, 100)));
    assert_eq!(map.cancel(key(1, 100)), Some(11));
    assert!(!map.contains(key(1, 100)));
}

#[test]
fn second_cancel_for_same_key_finds_nothing() {
    let mut map = CancelMap::new();
    assert!(map.register(key(1, 100), 11));
    assert_eq!(map.cancel(key(1, 100)), Some(11));
    assert_eq!(map.cancel(key(1, 100)), None);
}

#[test]
fn register_rejects_a_key_already_live() {
    let mut map = CancelMap::new();
    assert!(map.register(key(1, 100), 11));
    assert!(!map.register(key(1, 100), 22));
    assert_eq!(map.cancel(key(1, 100)), Some(11));
}

#[test]
fn cancel_hits_only_the_matching_session() {
    let mut map = CancelMap::new();
    let k1 = key(1, 100);
    let k2 = key(2, 200);
    assert!(map.register(k1, 11));
    assert!(map.register(k2, 22));

    assert_eq!(map.cancel(k1), Some(11));
    assert!(!map.contains(k1));
    assert!(map.contains(k2));
    assert_eq!(map.cancel(k2), Some(22));
}

#[test]
fn keys_differing_only_in_one_field_are_distinct() {
    let mut map = CancelMap::new();
    assert!(map.register(key(1, 100), 11));
    assert!(map.register(key(1, 101), 22));
    assert!(map.register(key(2, 100), 33));
    assert_eq!(map.cancel(key(1, 101)), Some(22));
    assert_eq!(map.cancel(key(1, 100)), Some(11));
    assert_eq!(map.cancel(key(2, 100)), Some(33));
}

#[test]
fn remove_drops_a_session_entry_on_exit() {
    let mut map = CancelMap::new();
    assert!(map.register(key(1, 100), 11));
    map.remove(key(1, 100));
    assert_eq!(map.cancel(key(1, 100)), None);
    // removing again, or removing a key never registered, changes nothing
    map.remove(key(1, 100));
    map.remove(key(9, 900));
    assert!(!map.contains(key(9, 900)));
}

#[test]
fn a_freed_key_can_be_registered_again() {
    let mut map = CancelMap::new();
    assert!(map.register(key(1, 100), 11));
    assert_eq!(map.cancel(key(1, 100)), Some(11));
    assert!(map.register(key(1, 100), 44));
    assert_eq!(map.cancel(key(1, 100)), Some(44));
}
