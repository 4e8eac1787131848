use flowy_kv::engine::KV_TABLE_DEF;
use flowy_kv::store::SCHEMA_MISMATCH;
use flowy_kv::{KVStore, KeyValue, KvError};

fn in_memory_store() -> KVStore {
    let mut store = KVStore::new();
    store.init_in_memory().unwrap();
    store
}

#[test]
fn in_memory_store_serves_reads_and_writes() {
    let mut store = in_memory_store();
    assert_eq!(store.get("k"), Err(KvError::NotFound));
    assert!(store.set_str("k", "v".to_string()));
    assert_eq!(store.get_str("k"), Some("v".to_string()));
    assert_eq!(store.get_int("k"), None);
    assert_eq!(store.remove("k"), Ok(()));
    assert_eq!(store.get_str("k"), None);
}

#[test]
fn init_in_memory_replaces_the_earlier_database() {
    let mut store = in_memory_store();
    assert!(store.set_int("n", 1));
    assert_eq!(store.init_in_memory(), Ok(()));
    assert_eq!(store.get_int("n"), None);
}

#[test]
fn schema_outcome_accepts_only_the_expected_definition() {
    assert_eq!(KVStore::schema_outcome(Ok(Some(KV_TABLE_DEF.to_string()))), Ok(()));
    assert_eq!(
        KVStore::schema_outcome(Ok(Some("CREATE TABLE kv_table (key TEXT)".to_string()))),
        Err(KvError::Engine(SCHEMA_MISMATCH.to_string()))
    );
    assert_eq!(KVStore::schema_outcome(Ok(None)), Err(KvError::Engine(SCHEMA_MISMATCH.to_string())));
    assert_eq!(KVStore::schema_outcome(Err("busy".to_string())), Err(KvError::Engine("busy".to_string())));
}

#[test]
fn init_outcome_decides_each_error() {
    assert_eq!(KVStore::init_outcome(false, Ok(()), Ok(())), Err(KvError::NotFound));
    assert_eq!(
        KVStore::init_outcome(true, Err("cannot open".to_string()), Ok(())),
        Err(KvError::Engine("cannot open".to_string()))
    );
    assert_eq!(
        KVStore::init_outcome(true, Ok(()), Err(KvError::Engine("locked".to_string()))),
        Err(KvError::Engine("locked".to_string()))
    );
    assert_eq!(KVStore::init_outcome(true, Ok(()), Ok(())), Ok(()));
}

#[test]
fn lookup_outcome_found_row() {
    let item = KeyValue::from_bool_value("b", true);
    assert_eq!(KVStore::lookup_outcome(Ok(Some(item.clone()))), Ok(item));
}

#[test]
fn lookup_outcome_missing_row_is_not_found() {
    assert_eq!(KVStore::lookup_outcome(Ok(None)), Err(KvError::NotFound));
}

#[test]
fn lookup_outcome_failure_is_engine_error() {
    assert_eq!(
        KVStore::lookup_outcome(Err("disk I/O error".to_string())),
        Err(KvError::Engine("disk I/O error".to_string()))
    );
}

#[test]
fn typed_outcomes_pick_their_field() {
    let mut item = KeyValue::from_str_value("k", "s".to_string());
    item.int_value = Some(4);
    assert_eq!(KVStore::str_outcome(Ok(item.clone())), Some("s".to_string()));
    assert_eq!(KVStore::int_outcome(Ok(item.clone())), Some(4));
    assert_eq!(KVStore::float_outcome(Ok(item.clone())), None);
    assert_eq!(KVStore::bool_outcome(Ok(item)), None);
    assert_eq!(KVStore::str_outcome(Err(KvError::NotFound)), None);
    assert_eq!(KVStore::bool_outcome(Err(KvError::Uninitialized)), None);
}
