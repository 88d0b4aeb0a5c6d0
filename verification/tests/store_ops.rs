use zkp_auth::store::{Authentication, RegistrationSecret, RegistrationStore, AuthenticationStore, Store};

#[test]
fn test_registration_store_insert() {
    // Setup
    let mut store = RegistrationStore::new();
    let secret = RegistrationSecret { y1: 1, y2: 2 };
    // Test
    store.insert("user".to_string(), secret.clone());

    // Assert
    assert_eq!(secret.clone(), store.get("user".to_string()).unwrap());
}

#[test]
fn test_authentication_store_insert() {
    // Setup
    let mut store = AuthenticationStore::new();
    let authentication = Authentication { r1: 1, r2: 2, c: 3, user: "user".to_string() };
    // Test
    store.insert("auth_id".to_string(), authentication.clone());

    // Assert
    assert_eq!(authentication.clone(), store.get("auth_id".to_string()).unwrap());
}

#[test]
fn registration_store_upsert_overwrites() {
    let mut store = RegistrationStore::new();
    store.insert("user".to_string(), RegistrationSecret { y1: 1, y2: 2 });
    store.insert("user".to_string(), RegistrationSecret { y1: 7, y2: 9 });
    assert_eq!(
        RegistrationSecret { y1: 7, y2: 9 },
        store.get("user".to_string()).unwrap()
    );
}

#[test]
fn store_lookup_of_absent_key_is_none() {
    let store = RegistrationStore::new();
    assert!(store.get("nobody".to_string()).is_none());
    let auth_store = AuthenticationStore::new();
    assert!(auth_store.get("no-session".to_string()).is_none());
}

#[test]
fn stores_keep_independent_keys() {
    let mut store = AuthenticationStore::new();
    let first = Authentication { r1: 1, r2: 2, c: 3, user: "a".to_string() };
    let second = Authentication { r1: 4, r2: 5, c: 6, user: "b".to_string() };
    store.insert("s1".to_string(), first.clone());
    store.insert("s2".to_string(), second.clone());
    assert_eq!(first, store.get("s1".to_string()).unwrap());
    assert_eq!(second, store.get("s2".to_string()).unwrap());
}
