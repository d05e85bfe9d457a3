use poca::store::{DataElementInner, Error, Store};

#[test]
fn a_new_store_is_empty() {
    let store: Store<i32, &'static str> = Store::new();
    assert_eq!(store.len(), 0);
    assert!(!store.contains("a"));
    assert!(matches!(store.lookup("a"), Err(Error::UnknownKey)));
}

#[test]
fn entries_keep_the_order_of_registration() {
    let mut store: Store<i32, &'static str> = Store::new();
    assert!(store.register("b", 2).is_ok());
    assert!(store.register("a", 1).is_ok());
    assert!(store.register("", 0).is_ok());
    assert_eq!(store.len(), 3);
    let keys: Vec<&str> = (0..store.len()).map(|i| store.entry(i).0).collect();
    assert_eq!(keys, vec!["b", "a", ""]);
    assert_eq!(store.entry(1).1.data, 1);
    assert!(store.contains(""));
    assert!(!store.contains("c"));
}

#[test]
fn a_registered_key_is_not_overwritten() {
    let mut store: Store<i32, &'static str> = Store::new();
    store.register("k", 1).unwrap();
    store.add_listener("k", "first").unwrap();
    assert!(matches!(
        store.register("k", 2),
        Err(Error::RegistrationConflict)
    ));
    let element: &DataElementInner<i32, &'static str> = store.lookup("k").unwrap();
    assert_eq!(element.data, 1);
    assert_eq!(element.on_change, vec!["first"]);
    assert_eq!(store.len(), 1);
}

#[test]
fn a_write_replaces_the_value_and_keeps_the_listeners() {
    let mut store: Store<i32, &'static str> = Store::new();
    store.register("k", 1).unwrap();
    store.register("other", 7).unwrap();
    store.add_listener("k", "first").unwrap();
    store.add_listener("k", "second").unwrap();
    store.write("k", 5).unwrap();
    let element = store.lookup("k").unwrap();
    assert_eq!(element.data, 5);
    assert_eq!(element.on_change, vec!["first", "second"]);
    assert_eq!(store.lookup("other").unwrap().data, 7);
    assert!(store.lookup("other").unwrap().on_change.is_empty());
    assert!(matches!(store.write("none", 1), Err(Error::UnknownKey)));
    assert!(matches!(
        store.add_listener("none", "x"),
        Err(Error::UnknownKey)
    ));
    assert_eq!(store.len(), 2);
}
