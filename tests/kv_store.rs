use flowy_kv::{KVStore, KeyValue, KvError};

const ROOT: &str = "/tmp";

fn memory_store() -> KVStore {
    let mut store = KVStore::new();
    store.init_in_memory().unwrap();
    store
}

fn store_at(dir: &str) -> KVStore {
    let mut store = KVStore::new();
    store.init(dir).unwrap();
    store
}

#[test]
fn kv_store_test() {
    let mut store = store_at(ROOT);

    store.set_str("1", "hello".to_string());
    assert_eq!(store.get_str("1").unwrap(), "hello");

    assert_eq!(store.get_str("2"), None);

    store.set_bool("1", true);
    assert_eq!(store.get_bool("1").unwrap(), true);

    assert_eq!(store.get_bool("2"), None);
}

#[test]
fn bool_write_replaces_string_under_same_key() {
    let mut store = memory_store();
    assert!(store.set_str("replace-1", "hello".to_string()));
    assert_eq!(store.get_str("replace-1"), Some("hello".to_string()));
    assert_eq!(store.get_str("replace-2"), None);
    assert!(store.set_bool("replace-1", true));
    assert_eq!(store.get_bool("replace-1"), Some(true));
    assert_eq!(store.get_str("replace-1"), None);
}

#[test]
fn operations_before_init_fail_uninitialized() {
    let mut store = KVStore::new();
    assert_eq!(store.set(KeyValue::new("a")), Err(KvError::Uninitialized));
    assert_eq!(store.get("a"), Err(KvError::Uninitialized));
    assert_eq!(store.remove("a"), Err(KvError::Uninitialized));
    assert!(!store.set_str("a", "x".to_string()));
    assert_eq!(store.get_str("a"), None);
    assert_eq!(store.get_int("a"), None);
}

#[test]
fn init_on_missing_directory_is_not_found() {
    let mut store = KVStore::new();
    assert_eq!(store.init("/tmp/no/such/directory/"), Err(KvError::NotFound));
    assert_eq!(store.get("a"), Err(KvError::Uninitialized));
}

#[test]
fn every_scalar_type_round_trips() {
    let mut store = memory_store();
    assert!(store.set_str("s", "text".to_string()));
    assert!(store.set_int("i", -42));
    assert!(store.set_float("f", 1.5f64.to_bits()));
    assert!(store.set_bool("b", false));
    assert_eq!(store.get_str("s"), Some("text".to_string()));
    assert_eq!(store.get_int("i"), Some(-42));
    assert_eq!(store.get_float("f").map(f64::from_bits), Some(1.5));
    assert_eq!(store.get_bool("b"), Some(false));
}

#[test]
fn extreme_values_round_trip() {
    let mut store = memory_store();
    assert!(store.set_int("max", i64::MAX));
    assert!(store.set_int("min", i64::MIN));
    assert!(store.set_float("nan", f64::NAN.to_bits()));
    assert!(store.set_float("neg", (-0.0f64).to_bits()));
    assert_eq!(store.get_int("max"), Some(i64::MAX));
    assert_eq!(store.get_int("min"), Some(i64::MIN));
    assert_eq!(store.get_float("nan"), Some(f64::NAN.to_bits()));
    assert_eq!(store.get_float("neg"), Some(0x8000_0000_0000_0000));
    assert!(store.set_str("empty", String::new()));
    assert_eq!(store.get_str("empty"), Some(String::new()));
}

#[test]
fn unwritten_key_has_no_value_of_any_type() {
    let store = memory_store();
    assert_eq!(store.get_str("never"), None);
    assert_eq!(store.get_int("never"), None);
    assert_eq!(store.get_float("never"), None);
    assert_eq!(store.get_bool("never"), None);
    assert_eq!(store.get("never"), Err(KvError::NotFound));
}

#[test]
fn set_replaces_the_whole_record() {
    let mut store = memory_store();
    let mut first = KeyValue::new("k");
    first.str_value = Some("a".to_string());
    store.set(first).unwrap();
    let mut second = KeyValue::new("k");
    second.int_value = Some(7);
    store.set(second).unwrap();
    let got = store.get("k").unwrap();
    assert_eq!(got.key, "k");
    assert_eq!(got.str_value, None);
    assert_eq!(got.int_value, Some(7));
}

#[test]
fn set_with_several_fields_keeps_them_all() {
    let mut store = memory_store();
    let mut item = KeyValue::new("multi");
    item.str_value = Some("x".to_string());
    item.bool_value = Some(true);
    store.set(item.clone()).unwrap();
    assert_eq!(store.get("multi"), Ok(item));
}

#[test]
fn remove_of_missing_key_succeeds() {
    let mut store = memory_store();
    assert_eq!(store.remove("absent"), Ok(()));
}

#[test]
fn get_after_remove_is_not_found() {
    let mut store = memory_store();
    assert!(store.set_int("gone", 3));
    assert_eq!(store.get_int("gone"), Some(3));
    assert_eq!(store.remove("gone"), Ok(()));
    assert_eq!(store.get("gone"), Err(KvError::NotFound));
    assert_eq!(store.get_int("gone"), None);
}

#[test]
fn init_again_keeps_existing_rows() {
    let mut first = store_at(ROOT);
    assert!(first.set_str("kept", "value".to_string()));
    drop(first);
    let second = store_at(ROOT);
    assert_eq!(second.get_str("kept"), Some("value".to_string()));
}

#[test]
fn init_on_a_regular_file_is_not_found() {
    let mut store = KVStore::new();
    assert_eq!(store.init("/etc/passwd"), Err(KvError::NotFound));
}

#[test]
fn key_value_new_has_only_a_key() {
    let item = KeyValue::new("key");
    assert_eq!(item.key, "key");
    assert_eq!(item.str_value, None);
    assert_eq!(item.int_value, None);
    assert_eq!(item.float_value, None);
    assert_eq!(item.bool_value, None);
    assert_eq!(KeyValue::from_int_value("n", 5).int_value, Some(5));
    assert_eq!(KeyValue::from_float_bits("f", 9).float_value, Some(9));
}
