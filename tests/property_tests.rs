use storedb::{
    check_signatures, decode_entries, decode_found, decode_keys, shared_table_shape,
    single_table_shape, Codec, Database, Db, Error,
};
use tempfile::NamedTempFile;

#[test]
fn round_trip_put_commit_get() {
    let temp_file = NamedTempFile::new().unwrap();
    let db_path = temp_file.path().to_str().unwrap();
    let mut db: Db<u32, String> = Db::new(db_path).unwrap();
    let mut tx = db.begin().unwrap();
    tx.put(7u32, "seven".to_string()).unwrap();
    tx.commit().unwrap();
    let tx = db.begin().unwrap();
    assert_eq!(tx.get(7u32).unwrap(), Some("seven".to_string()));
}

#[test]
fn round_trip_large_values() {
    let temp_file = NamedTempFile::new().unwrap();
    let db_path = temp_file.path().to_str().unwrap();
    let mut db: Db<u32, String> = Db::new(db_path).unwrap();
    let long = "x".repeat(300);
    let mut tx = db.begin().unwrap();
    tx.put(u32::MAX, long.clone()).unwrap();
    tx.put(0u32, String::new()).unwrap();
    tx.commit().unwrap();
    let tx = db.begin().unwrap();
    assert_eq!(tx.get(u32::MAX).unwrap(), Some(long));
    assert_eq!(tx.get(0u32).unwrap(), Some(String::new()));
}

#[test]
fn insert_only_conflict_keeps_first_value() {
    let temp_file = NamedTempFile::new().unwrap();
    let db_path = temp_file.path().to_str().unwrap();
    let mut db: Db<u32, String> = Db::new(db_path).unwrap();
    let mut tx = db.begin().unwrap();
    tx.put(1u32, "v1".to_string()).unwrap();
    tx.commit().unwrap();
    let mut tx = db.begin().unwrap();
    assert!(matches!(tx.put(1u32, "v2".to_string()), Err(Error::KeyAlreadyExists)));
    assert_eq!(tx.get(1u32).unwrap(), Some("v1".to_string()));
    tx.rollback().unwrap();
    let tx = db.begin().unwrap();
    assert_eq!(tx.get(1u32).unwrap(), Some("v1".to_string()));
}

#[test]
fn upsert_last_value_wins() {
    let temp_file = NamedTempFile::new().unwrap();
    let db_path = temp_file.path().to_str().unwrap();
    let mut db: Db<u32, String> = Db::new(db_path).unwrap();
    let mut tx = db.begin().unwrap();
    tx.set(5u32, "v1".to_string()).unwrap();
    tx.set(5u32, "v2".to_string()).unwrap();
    tx.commit().unwrap();
    let tx = db.begin().unwrap();
    assert_eq!(tx.get(5u32).unwrap(), Some("v2".to_string()));
    assert_eq!(tx.count().unwrap(), 1);
}

#[test]
fn delete_of_absent_key_is_no_error() {
    let temp_file = NamedTempFile::new().unwrap();
    let db_path = temp_file.path().to_str().unwrap();
    let mut db: Db<u32, String> = Db::new(db_path).unwrap();
    let mut tx = db.begin().unwrap();
    tx.set(1u32, "a".to_string()).unwrap();
    tx.del(2u32).unwrap();
    assert_eq!(tx.count().unwrap(), 1);
    assert_eq!(tx.get(1u32).unwrap(), Some("a".to_string()));
    tx.commit().unwrap();
}

#[test]
fn uncommitted_writes_are_invisible() {
    let temp_file = NamedTempFile::new().unwrap();
    let db_path = temp_file.path().to_str().unwrap();
    let mut db: Db<u32, String> = Db::new(db_path).unwrap();
    let mut tx = db.begin().unwrap();
    tx.set(1u32, "dropped".to_string()).unwrap();
    drop(tx);
    let mut tx = db.begin().unwrap();
    tx.set(2u32, "cancelled".to_string()).unwrap();
    tx.cancel().unwrap();
    let tx = db.begin().unwrap();
    assert_eq!(tx.count().unwrap(), 0);
    assert!(!tx.contains(1u32).unwrap());
    assert!(!tx.contains(2u32).unwrap());
}

#[test]
fn scan_and_count_after_distinct_puts() {
    let temp_file = NamedTempFile::new().unwrap();
    let db_path = temp_file.path().to_str().unwrap();
    let mut db: Db<u32, u32> = Db::new(db_path).unwrap();
    let mut tx = db.begin().unwrap();
    for i in 0..20u32 {
        tx.put(i * 100, i).unwrap();
    }
    tx.commit().unwrap();
    let tx = db.begin().unwrap();
    let mut entries = tx.scan().unwrap();
    entries.sort();
    let expected: Vec<(u32, u32)> = (0..20u32).map(|i| (i * 100, i)).collect();
    assert_eq!(entries, expected);
    assert_eq!(tx.count().unwrap(), 20);
    let mut keys = tx.keys().unwrap();
    keys.sort();
    let expected_keys: Vec<u32> = (0..20u32).map(|i| i * 100).collect();
    assert_eq!(keys, expected_keys);
}

#[test]
fn empty_store_scans_nothing() {
    let temp_file = NamedTempFile::new().unwrap();
    let db_path = temp_file.path().to_str().unwrap();
    let mut db: Db<String, String> = Db::new(db_path).unwrap();
    let tx = db.begin().unwrap();
    assert_eq!(tx.count().unwrap(), 0);
    assert!(tx.keys().unwrap().is_empty());
    assert!(tx.scan().unwrap().is_empty());
    assert_eq!(tx.get("missing".to_string()).unwrap(), None);
}

#[test]
fn undecodable_value_is_serialization_error() {
    let temp_file = NamedTempFile::new().unwrap();
    let db_path = temp_file.path().to_str().unwrap();
    {
        let mut db: Db<u32, u32> = Db::new(db_path).unwrap();
        let mut tx = db.begin().unwrap();
        tx.set(1u32, 300u32).unwrap();
        tx.commit().unwrap();
    }
    let mut db: Db<u32, String> = Db::new(db_path).unwrap();
    let tx = db.begin().unwrap();
    assert!(matches!(tx.get(1u32), Err(Error::SerializationError(_))));
    assert!(matches!(tx.scan(), Err(Error::SerializationError(_))));
    assert_eq!(tx.keys().unwrap(), vec![1u32]);
    assert!(tx.contains(1u32).unwrap());
}

#[test]
fn open_in_missing_directory_is_sqlite_error() {
    let dir = tempfile::tempdir().unwrap();
    let path = dir.path().join("missing").join("store.db");
    let r: Result<Db<u32, u32>, Error> = Db::new(path.to_str().unwrap());
    assert!(matches!(r, Err(Error::SqliteError(_))));
    assert!(matches!(Database::new(path.to_str().unwrap()), Err(Error::SqliteError(_))));
}

#[test]
fn type_signature_enforcement_reports_both_pairs() {
    let temp_file = NamedTempFile::new().unwrap();
    let db_path = temp_file.path().to_str().unwrap();
    let mut db = Database::new(db_path).unwrap();
    let users = db.get_collection::<u32, String>("users").unwrap();
    let mut tx = users.begin(&mut db).unwrap();
    tx.put(1u32, "Alice".to_string()).unwrap();
    tx.commit().unwrap();
    match db.get_collection::<String, String>("users") {
        Err(Error::TypeMismatch { expected_key, expected_value, got_key, got_value }) => {
            assert_eq!(expected_key, "alloc::string::String");
            assert_eq!(expected_value, "alloc::string::String");
            assert_eq!(got_key, "u32");
            assert_eq!(got_value, "alloc::string::String");
        }
        _ => panic!("expected a type mismatch"),
    }
    let again = db.get_collection::<u32, String>("users").unwrap();
    let tx = again.begin(&mut db).unwrap();
    assert_eq!(tx.count().unwrap(), 1);
    assert_eq!(tx.get(1u32).unwrap(), Some("Alice".to_string()));
}

#[test]
fn namespaces_are_isolated() {
    let temp_file = NamedTempFile::new().unwrap();
    let db_path = temp_file.path().to_str().unwrap();
    let mut db = Database::new(db_path).unwrap();
    let x = db.get_collection::<u32, String>("x").unwrap();
    let y = db.get_collection::<u32, String>("y").unwrap();
    let mut tx = x.begin(&mut db).unwrap();
    tx.put(1u32, "a".to_string()).unwrap();
    tx.commit().unwrap();
    let mut tx = y.begin(&mut db).unwrap();
    tx.put(1u32, "b".to_string()).unwrap();
    tx.commit().unwrap();
    let tx = x.begin(&mut db).unwrap();
    assert_eq!(tx.get(1u32).unwrap(), Some("a".to_string()));
    assert_eq!(tx.count().unwrap(), 1);
    drop(tx);
    let mut tx = y.begin(&mut db).unwrap();
    assert_eq!(tx.get(1u32).unwrap(), Some("b".to_string()));
    tx.clear().unwrap();
    tx.commit().unwrap();
    let tx = x.begin(&mut db).unwrap();
    assert_eq!(tx.scan().unwrap(), vec![(1u32, "a".to_string())]);
}

#[test]
fn collection_operations() {
    let temp_file = NamedTempFile::new().unwrap();
    let db_path = temp_file.path().to_str().unwrap();
    let mut db = Database::new(db_path).unwrap();
    let c = db.get_collection::<String, u32>("c").unwrap();
    let mut tx = c.begin(&mut db).unwrap();
    tx.put("a".to_string(), 1u32).unwrap();
    tx.set("b".to_string(), 2u32).unwrap();
    tx.set("b".to_string(), 3u32).unwrap();
    assert!(matches!(tx.put("a".to_string(), 9u32), Err(Error::KeyAlreadyExists)));
    tx.del("zzz".to_string()).unwrap();
    assert!(tx.contains("a".to_string()).unwrap());
    let mut keys = tx.keys().unwrap();
    keys.sort();
    assert_eq!(keys, vec!["a".to_string(), "b".to_string()]);
    tx.del("a".to_string()).unwrap();
    assert_eq!(tx.get("a".to_string()).unwrap(), None);
    assert_eq!(tx.get("b".to_string()).unwrap(), Some(3u32));
    tx.commit().unwrap();
    let tx = c.begin(&mut db).unwrap();
    assert_eq!(tx.count().unwrap(), 1);
    tx.rollback().unwrap();
}

#[test]
fn concrete_scenario() {
    let temp_file = NamedTempFile::new().unwrap();
    let db_path = temp_file.path().to_str().unwrap();
    let mut db: Db<u32, String> = Db::new(db_path).unwrap();
    let mut tx = db.begin().unwrap();
    tx.put(1u32, "Alice".to_string()).unwrap();
    tx.put(2u32, "Bob".to_string()).unwrap();
    tx.commit().unwrap();
    let mut tx = db.begin().unwrap();
    assert!(tx.contains(1u32).unwrap());
    assert_eq!(tx.get(1u32).unwrap(), Some("Alice".to_string()));
    let mut keys = tx.keys().unwrap();
    keys.sort();
    assert_eq!(keys, vec![1u32, 2u32]);
    tx.set(1u32, "Charlie".to_string()).unwrap();
    tx.commit().unwrap();
    let mut tx = db.begin().unwrap();
    assert_eq!(tx.get(1u32).unwrap(), Some("Charlie".to_string()));
    assert!(matches!(tx.put(1u32, "Dave".to_string()), Err(Error::KeyAlreadyExists)));
    tx.rollback().unwrap();
    let tx = db.begin().unwrap();
    assert_eq!(tx.get(1u32).unwrap(), Some("Charlie".to_string()));
}

#[test]
fn codec_bytes_are_exact() {
    assert_eq!(0u32.encode().unwrap(), vec![0u8]);
    assert_eq!(127u32.encode().unwrap(), vec![127u8]);
    assert_eq!(300u32.encode().unwrap(), vec![0xACu8, 0x02]);
    assert_eq!(u32::MAX.encode().unwrap(), vec![0xFFu8, 0xFF, 0xFF, 0xFF, 0x0F]);
    assert_eq!("ab".to_string().encode().unwrap(), vec![2u8, b'a', b'b']);
    assert_eq!("é".to_string().encode().unwrap(), vec![2u8, 0xC3, 0xA9]);
    assert_eq!(<u32 as Codec>::decode(&[0xACu8, 0x02]).unwrap(), 300);
    assert_eq!(<String as Codec>::decode(&[2u8, b'a', b'b']).unwrap(), "ab");
    assert!(<u32 as Codec>::decode(&[]).is_err());
    assert!(<String as Codec>::decode(&[5u8, b'a']).is_err());
    assert_eq!(<u32 as Codec>::type_signature(), "u32");
    assert_eq!(<String as Codec>::type_signature(), "alloc::string::String");
}

#[test]
fn signature_check_outcomes() {
    let s = |x: &str| x.to_string();
    assert!(matches!(check_signatures(None, s("u32"), s("u32")), Ok(true)));
    assert!(matches!(check_signatures(Some((s("u32"), s("u32"))), s("u32"), s("u32")), Ok(false)));
    match check_signatures(Some((s("u32"), s("u32"))), s("u32"), s("alloc::string::String")) {
        Err(Error::TypeMismatch { expected_key, expected_value, got_key, got_value }) => {
            assert_eq!(expected_key, "u32");
            assert_eq!(expected_value, "alloc::string::String");
            assert_eq!(got_key, "u32");
            assert_eq!(got_value, "u32");
        }
        _ => panic!("expected a type mismatch"),
    }
}

#[test]
fn decoders_of_found_rows() {
    assert!(matches!(decode_found::<u32>(None), Ok(None)));
    assert!(matches!(decode_found::<u32>(Some(vec![5u8])), Ok(Some(5))));
    assert!(matches!(decode_found::<u32>(Some(vec![])), Err(Error::SerializationError(_))));
    let rows = vec![(vec![1u8], vec![1u8, b'a']), (vec![2u8], vec![0u8])];
    assert_eq!(decode_keys::<u32>(&rows).unwrap(), vec![1u32, 2u32]);
    assert_eq!(
        decode_entries::<u32, String>(&rows).unwrap(),
        vec![(1u32, "a".to_string()), (2u32, String::new())]
    );
    let bad = vec![(vec![1u8], vec![9u8])];
    assert!(matches!(decode_entries::<u32, String>(&bad), Err(Error::SerializationError(_))));
    assert!(matches!(decode_keys::<String>(&bad), Err(Error::SerializationError(_))));
}

#[test]
fn stores_of_the_other_kind_are_refused() {
    let shared = NamedTempFile::new().unwrap();
    let shared_path = shared.path().to_str().unwrap();
    {
        let mut db = Database::new(shared_path).unwrap();
        let c = db.get_collection::<u32, String>("c").unwrap();
        let mut tx = c.begin(&mut db).unwrap();
        tx.put(1u32, "a".to_string()).unwrap();
        tx.commit().unwrap();
    }
    let r: Result<Db<u32, String>, Error> = Db::new(shared_path);
    assert!(matches!(r, Err(Error::IncompatibleSchema)));

    let single = NamedTempFile::new().unwrap();
    let single_path = single.path().to_str().unwrap();
    {
        let _db: Db<u32, String> = Db::new(single_path).unwrap();
    }
    assert!(matches!(Database::new(single_path), Err(Error::IncompatibleSchema)));
    assert!(Db::<u32, String>::new(single_path).is_ok());
    assert!(Database::new(shared_path).is_ok());
}

#[test]
fn table_shape_checks() {
    let col = |n: &str, t: &str, pk: i64| (n.to_string(), t.to_string(), pk);
    let single = vec![col("key", "BLOB", 1), col("value", "BLOB", 0)];
    let shared = vec![col("collection", "TEXT", 1), col("key", "BLOB", 2), col("value", "BLOB", 0)];
    assert!(single_table_shape(&single));
    assert!(!shared_table_shape(&single));
    assert!(shared_table_shape(&shared));
    assert!(!single_table_shape(&shared));
    assert!(!single_table_shape(&vec![col("key", "BLOB", 0), col("value", "BLOB", 0)]));
    assert!(!single_table_shape(&vec![]));
}

#[test]
fn collections_share_one_store_one_transaction_at_a_time() {
    let temp_file = NamedTempFile::new().unwrap();
    let db_path = temp_file.path().to_str().unwrap();
    let mut db = Database::new(db_path).unwrap();
    let a = db.get_collection::<u32, u32>("a").unwrap();
    let b = db.get_collection::<u32, u32>("b").unwrap();
    let mut tx = a.begin(&mut db).unwrap();
    tx.put(1u32, 1u32).unwrap();
    tx.commit().unwrap();
    let tx = b.begin(&mut db).unwrap();
    assert_eq!(tx.count().unwrap(), 0);
    tx.rollback().unwrap();
    let tx = a.begin(&mut db).unwrap();
    assert_eq!(tx.count().unwrap(), 1);
}

#[test]
fn wide_integer_and_byte_codecs() {
    assert_eq!(300u64.encode().unwrap(), vec![0xACu8, 0x02]);
    assert_eq!(u64::MAX.encode().unwrap().len(), 10);
    assert_eq!(<u64 as Codec>::decode(&u64::MAX.encode().unwrap()).unwrap(), u64::MAX);
    assert_eq!(vec![9u8, 8].encode().unwrap(), vec![2u8, 9, 8]);
    assert_eq!(<Vec<u8> as Codec>::decode(&[2u8, 9, 8]).unwrap(), vec![9u8, 8]);
    assert!(<Vec<u8> as Codec>::decode(&[3u8, 1]).is_err());
    assert_eq!(<u64 as Codec>::type_signature(), "u64");
    assert_eq!(<Vec<u8> as Codec>::type_signature(), "alloc::vec::Vec<u8>");

    let temp_file = NamedTempFile::new().unwrap();
    let db_path = temp_file.path().to_str().unwrap();
    let mut db: Db<u64, Vec<u8>> = Db::new(db_path).unwrap();
    let mut tx = db.begin().unwrap();
    tx.put(1u64 << 40, vec![0u8, 255, 7]).unwrap();
    tx.commit().unwrap();
    let tx = db.begin().unwrap();
    assert_eq!(tx.get(1u64 << 40).unwrap(), Some(vec![0u8, 255, 7]));
}
