use storedb::{Db, Error};
use tempfile::NamedTempFile;

#[test]
fn test_set_and_get() {
    let temp_file = NamedTempFile::new().unwrap();
    let db_path = temp_file.path().to_str().unwrap();
    let mut db: Db<u32, String> = Db::new(db_path).unwrap();

    let mut tx = db.begin().unwrap();
    tx.set(1u32, "value1".to_string()).unwrap();
    tx.commit().unwrap();

    let tx = db.begin().unwrap();
    let value = tx.get(1u32).unwrap();
    assert_eq!(value, Some("value1".to_string()));
}

#[test]
fn test_put_existing_key() {
    let temp_file = NamedTempFile::new().unwrap();
    let db_path = temp_file.path().to_str().unwrap();
    let mut db: Db<String, String> = Db::new(db_path).unwrap();

    let mut tx = db.begin().unwrap();
    tx.put("key1".to_string(), "value1".to_string()).unwrap();
    tx.commit().unwrap();

    let mut tx = db.begin().unwrap();
    let result = tx.put("key1".to_string(), "value2".to_string());
    assert!(matches!(result, Err(Error::KeyAlreadyExists)));
    tx.rollback().unwrap();

    let tx = db.begin().unwrap();
    let value = tx.get("key1".to_string()).unwrap();
    assert_eq!(value, Some("value1".to_string()));
}

#[test]
fn test_del() {
    let temp_file = NamedTempFile::new().unwrap();
    let db_path = temp_file.path().to_str().unwrap();
    let mut db: Db<u32, String> = Db::new(db_path).unwrap();

    let mut tx = db.begin().unwrap();
    tx.set(1u32, "value1".to_string()).unwrap();
    tx.commit().unwrap();

    let mut tx = db.begin().unwrap();
    tx.del(1u32).unwrap();
    tx.commit().unwrap();

    let tx = db.begin().unwrap();
    let value = tx.get(1u32).unwrap();
    assert_eq!(value, None);
}

#[test]
fn test_contains() {
    let temp_file = NamedTempFile::new().unwrap();
    let db_path = temp_file.path().to_str().unwrap();
    let mut db: Db<String, String> = Db::new(db_path).unwrap();

    let mut tx = db.begin().unwrap();
    tx.set("key1".to_string(), "value1".to_string()).unwrap();
    tx.commit().unwrap();

    let tx = db.begin().unwrap();
    assert!(tx.contains("key1".to_string()).unwrap());
    assert!(!tx.contains("key2".to_string()).unwrap());
}

#[test]
fn test_keys() {
    let temp_file = NamedTempFile::new().unwrap();
    let db_path = temp_file.path().to_str().unwrap();
    let mut db: Db<String, String> = Db::new(db_path).unwrap();

    let mut tx = db.begin().unwrap();
    tx.set("key1".to_string(), "value1".to_string()).unwrap();
    tx.set("key2".to_string(), "value2".to_string()).unwrap();
    tx.set("key3".to_string(), "value3".to_string()).unwrap();
    tx.commit().unwrap();

    let tx = db.begin().unwrap();
    let keys = tx.keys().unwrap();
    assert_eq!(keys.len(), 3);
    assert!(keys.contains(&"key1".to_string()));
    assert!(keys.contains(&"key2".to_string()));
    assert!(keys.contains(&"key3".to_string()));
}

#[test]
fn test_scan() {
    let temp_file = NamedTempFile::new().unwrap();
    let db_path = temp_file.path().to_str().unwrap();
    let mut db: Db<u32, String> = Db::new(db_path).unwrap();

    let mut tx = db.begin().unwrap();
    tx.set(1u32, "value1".to_string()).unwrap();
    tx.set(2u32, "value2".to_string()).unwrap();
    tx.set(3u32, "value3".to_string()).unwrap();
    tx.commit().unwrap();

    let tx = db.begin().unwrap();
    let entries = tx.scan().unwrap();
    assert_eq!(entries.len(), 3);
    assert!(entries.contains(&(1u32, "value1".to_string())));
    assert!(entries.contains(&(2u32, "value2".to_string())));
    assert!(entries.contains(&(3u32, "value3".to_string())));
}

#[test]
fn test_clear_and_count() {
    let temp_file = NamedTempFile::new().unwrap();
    let db_path = temp_file.path().to_str().unwrap();
    let mut db: Db<u32, String> = Db::new(db_path).unwrap();

    let mut tx = db.begin().unwrap();
    tx.set(1u32, "a".to_string()).unwrap();
    tx.set(2u32, "b".to_string()).unwrap();
    tx.set(3u32, "c".to_string()).unwrap();
    tx.commit().unwrap();

    let tx = db.begin().unwrap();
    assert_eq!(tx.count().unwrap(), 3);
    drop(tx);

    let mut tx = db.begin().unwrap();
    tx.clear().unwrap();
    tx.commit().unwrap();

    let tx = db.begin().unwrap();
    assert_eq!(tx.count().unwrap(), 0);
}

#[test]
fn test_transaction_commit_and_rollback() {
    let temp_file = NamedTempFile::new().unwrap();
    let db_path = temp_file.path().to_str().unwrap();
    let mut db: Db<String, String> = Db::new(db_path).unwrap();

    // Begin a transaction and insert a key, then commit
    let mut tx = db.begin().unwrap();
    tx.set("key1".to_string(), "value1".to_string()).unwrap();
    tx.commit().unwrap();

    // Verify insertion
    let tx = db.begin().unwrap();
    let value = tx.get("key1".to_string()).unwrap();
    assert_eq!(value, Some("value1".to_string()));
    drop(tx);

    // Begin another transaction, insert a key, then rollback
    let mut tx = db.begin().unwrap();
    tx.set("key2".to_string(), "value2".to_string()).unwrap();
    tx.rollback().unwrap();

    // Verify that "key2" was not inserted
    let tx = db.begin().unwrap();
    let value = tx.get("key2".to_string()).unwrap();
    assert_eq!(value, None);
}
