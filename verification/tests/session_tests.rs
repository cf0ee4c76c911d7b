use auth_core::MemorySessions;
use auth_core::SessionManager;

#[test]
fn get_returns_the_stored_secret() {
    let mut store = MemorySessions::new();
    assert!(store.get(1).is_none());
    store.insert(1, String::from("secret-one")).unwrap();
    assert_eq!(store.get(1).unwrap(), "secret-one");
    assert!(store.get(2).is_none());
}

#[test]
fn insert_overwrites_the_prior_secret() {
    let mut store = MemorySessions::new();
    store.insert(7, String::from("first")).unwrap();
    store.insert(7, String::from("second")).unwrap();
    assert_eq!(store.get(7).unwrap(), "second");
}

#[test]
fn remove_is_idempotent() {
    let mut store = MemorySessions::new();
    store.insert(3, String::from("gone-soon")).unwrap();
    store.remove(3).unwrap();
    assert!(store.get(3).is_none());
    // Removing an absent key is not an error and changes nothing.
    store.remove(3).unwrap();
    assert!(store.get(3).is_none());
}

#[test]
fn remove_touches_only_its_own_key() {
    let mut store = MemorySessions::new();
    store.insert(1, String::from("one")).unwrap();
    store.insert(2, String::from("two")).unwrap();
    store.remove(1).unwrap();
    assert!(store.get(1).is_none());
    assert_eq!(store.get(2).unwrap(), "two");
}

#[test]
fn clear_all_wipes_every_session() {
    let mut store = MemorySessions::new();
    store.insert(1, String::from("one")).unwrap();
    store.insert(2, String::from("two")).unwrap();
    store.clear_all().unwrap();
    assert!(store.get(1).is_none());
    assert!(store.get(2).is_none());
}

#[test]
fn clear_expired_sweeps_only_dead_entries() {
    let mut store = MemorySessions::new();
    // A zero time-to-live expires at once; the default lives a year.
    store.insert_for(1, String::from("already-dead"), 0).unwrap();
    store.insert(2, String::from("alive")).unwrap();
    store.clear_expired().unwrap();
    assert!(store.get(1).is_none());
    assert_eq!(store.get(2).unwrap(), "alive");
}
