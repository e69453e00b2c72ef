use passkey_core::challenge::Challenge;
use passkey_core::storage::InMemoryStore;

#[test]
fn store_and_retrieve() {
    let mut store = InMemoryStore::new();
    let challenge = Challenge::new("CABC123");
    let key = challenge.storage_key();

    store.store(&key, &challenge).unwrap();

    let retrieved = store.retrieve(&key).unwrap().unwrap();
    assert_eq!(retrieved.challenge, challenge.challenge);
    assert_eq!(retrieved.contract_id, challenge.contract_id);
}

#[test]
fn retrieve_nonexistent_returns_none() {
    let store = InMemoryStore::new();
    let result = store.retrieve("nonexistent").unwrap();
    assert!(result.is_none());
}

#[test]
fn delete_removes_challenge() {
    let mut store = InMemoryStore::new();
    let challenge = Challenge::new("CABC123");
    let key = challenge.storage_key();

    store.store(&key, &challenge).unwrap();
    store.delete(&key).unwrap();

    let result = store.retrieve(&key).unwrap();
    assert!(result.is_none());
}

#[test]
fn store_overwrites_existing_key() {
    let mut store = InMemoryStore::new();
    let first = Challenge::new("CABC123");
    let second = Challenge::new("CABC123");
    let key = "challenge:CABC123:shared";

    store.store(key, &first).unwrap();
    store.store(key, &second).unwrap();

    let retrieved = store.retrieve(key).unwrap().unwrap();
    assert_eq!(retrieved.challenge, second.challenge);
}
