//! The key-value store: the trees of the users, counters, and values with an end of life.

use privchat_sdk::error::PrivchatSDKError;
use privchat_sdk::json::JsonValue;
use privchat_sdk::storage::kv::{
    counter_text, open_error, open_retry, tree_name, KvPair, KvStore, OpenRetry, TimedPair,
    TimedRead,
};

fn tree(store: &KvStore, dir: &std::path::Path) -> sled::Tree {
    let db = sled::open(dir).unwrap();
    db.open_tree(store.current_tree().unwrap()).unwrap()
}

fn increment(tree: &sled::Tree, key: &str, delta: i64) -> i64 {
    let stored = tree.get(key).unwrap().map(|bytes| bytes.to_vec());
    let step = KvStore::increment_counter(&counter_text(&stored).unwrap(), delta).unwrap();
    tree.insert(key, step.stored.as_bytes()).unwrap();
    step.value
}

#[test]
fn test_kv_store_basic_operations() {
    let dir = tempfile::TempDir::new().unwrap();
    let mut store = KvStore::new();
    assert!(store.needs_tree("test_user"));
    store.init_user_tree("test_user");
    store.switch_user("test_user");

    let tree = tree(&store, dir.path());
    let data = JsonValue::from_text(r#"{"name":"test","value":123}"#).unwrap();
    tree.insert("test_key", KvStore::set(&data)).unwrap();
    let stored = tree.get("test_key").unwrap().map(|bytes| bytes.to_vec());
    let retrieved = KvStore::get(&stored).unwrap().unwrap();
    assert_eq!(retrieved.to_text(), data.to_text());
    assert_eq!(retrieved.str_at("name"), Some("test".to_string()));
    assert_eq!(retrieved.u64_at("value"), Some(123));
    assert!(tree.contains_key("test_key").unwrap());
    assert!(!tree.contains_key("non_existent_key").unwrap());
    tree.remove("test_key").unwrap();
    let deleted = tree.get("test_key").unwrap().map(|bytes| bytes.to_vec());
    assert!(KvStore::get(&deleted).unwrap().is_none());
    match KvStore::get(&Some(b"{".to_vec())) {
        Err(PrivchatSDKError::Serialization(m)) => assert!(m.starts_with("反序列化值失败: ")),
        other => panic!("{:?}", other),
    }
}

#[test]
fn test_kv_store_batch_operations() {
    let dir = tempfile::TempDir::new().unwrap();
    let mut store = KvStore::new();
    store.init_user_tree("test_user");
    store.switch_user("test_user");
    let tree = tree(&store, dir.path());

    let values: Vec<JsonValue> =
        (1..=3).map(|i| JsonValue::from_text(&format!(r#"{{"value":{}}}"#, i)).unwrap()).collect();
    let mut batch = sled::Batch::default();
    for (i, bytes) in KvStore::set_batch(&values).into_iter().enumerate() {
        batch.insert(format!("key{}", i + 1).as_bytes(), bytes);
    }
    tree.apply_batch(batch).unwrap();

    for i in 1..=3 {
        let key = format!("key{}", i);
        let stored = tree.get(&key).unwrap().map(|bytes| bytes.to_vec());
        assert_eq!(KvStore::get(&stored).unwrap().unwrap().u64_at("value"), Some(i));
    }

    let mut pairs = Vec::new();
    for pair in tree.scan_prefix(b"key") {
        let (key, value) = pair.unwrap();
        pairs.push(KvPair { key: key.to_vec(), value: value.to_vec() });
    }
    let results = KvStore::scan_prefix(&pairs).unwrap();
    assert_eq!(results.len(), 3);
    assert_eq!((results[0].key.as_slice(), results[0].value.u64_at("value")), (&b"key1"[..], Some(1)));
    pairs.push(KvPair { key: b"key4".to_vec(), value: b"no".to_vec() });
    assert!(KvStore::scan_prefix(&pairs).is_err());
}

#[test]
fn test_kv_store_counter() {
    let dir = tempfile::TempDir::new().unwrap();
    let mut store = KvStore::new();
    store.init_user_tree("test_user");
    store.switch_user("test_user");
    let tree = tree(&store, dir.path());

    assert_eq!(increment(&tree, "test_counter", 5), 5);
    assert_eq!(increment(&tree, "test_counter", 3), 8);
    assert_eq!(increment(&tree, "test_counter", -2), 6);
}

#[test]
fn a_counter_that_is_no_number_is_refused() {
    match KvStore::increment_counter(&Some("x".to_string()), 1) {
        Err(PrivchatSDKError::KvStore(m)) => {
            assert_eq!(m, "计数器值解析失败: invalid digit found in string")
        }
        other => panic!("{:?}", other),
    }
    match KvStore::increment_counter(&Some(String::new()), 1) {
        Err(PrivchatSDKError::KvStore(m)) => {
            assert_eq!(m, "计数器值解析失败: cannot parse integer from empty string")
        }
        other => panic!("{:?}", other),
    }
    match counter_text(&Some(vec![0xff])) {
        Err(PrivchatSDKError::KvStore(m)) => assert!(m.starts_with("计数器值格式错误: ")),
        other => panic!("{:?}", other),
    }
}

#[test]
fn test_kv_store_ttl() {
    let data = JsonValue::from_text(r#"{"message":"这是一个带过期时间的值"}"#).unwrap();
    let bytes = KvStore::set_with_ttl(data, 1000, 1);

    for now in [1000, 1001] {
        match KvStore::get_with_ttl(&bytes, &None, now).unwrap() {
            TimedRead::Alive(value) => {
                assert_eq!(value.str_at("message"), Some("这是一个带过期时间的值".to_string()))
            }
            other => panic!("{:?}", other),
        }
    }
    assert!(matches!(KvStore::get_with_ttl(&bytes, &None, 1002).unwrap(), TimedRead::Expired));
    assert!(KvStore::get_with_ttl(&b"plain".to_vec(), &None, 1000).is_err());
    let twice = br#"{"value":1,"value":2,"expires_at":2000}"#.to_vec();
    let why = Some("duplicate field `value` at line 1 column 18".to_string());
    match KvStore::get_with_ttl(&twice, &why, 1000) {
        Err(PrivchatSDKError::Serialization(m)) => {
            assert_eq!(m, "反序列化过期值失败: duplicate field `value` at line 1 column 18")
        }
        other => panic!("{:?}", other),
    }
    match KvStore::get_with_ttl(&b"[7, 2000]".to_vec(), &None, 1000).unwrap() {
        TimedRead::Alive(value) => assert_eq!(value.to_text(), "7"),
        other => panic!("{:?}", other),
    }

    let pairs = vec![
        TimedPair { key: b"old".to_vec(), value: bytes, refusal: None },
        TimedPair {
            key: b"plain".to_vec(),
            value: b"plain".to_vec(),
            refusal: Some("expected value at line 1 column 1".to_string()),
        },
        TimedPair { key: b"twice".to_vec(), value: twice, refusal: why },
    ];
    assert_eq!(KvStore::cleanup_expired(&pairs, 3000), vec![b"old".to_vec()]);
    assert_eq!(KvStore::cleanup_expired(&pairs, 1002), vec![b"old".to_vec()]);
    assert!(KvStore::cleanup_expired(&pairs, 1001).is_empty());
}

#[test]
fn the_trees_of_users_are_apart() {
    assert_ne!(tree_name("a"), tree_name("b"));
    let mut store = KvStore::new();
    assert!(store.current_tree().is_err());
    store.init_user_tree("a");
    store.switch_user("a");
    let first = store.current_tree().unwrap();
    store.init_user_tree("b");
    store.switch_user("b");
    assert_ne!(store.current_tree().unwrap(), first);
    assert_eq!(store.cleanup_user_data("b"), tree_name("b"));
    assert!(store.current_tree().is_err());
}

#[test]
fn a_locked_store_is_opened_again_with_growing_pauses() {
    let locked = "could not acquire lock on db";
    let mut pauses = Vec::new();
    let mut attempt: u32 = 0;
    while let OpenRetry::After(ms) = open_retry(attempt, locked) {
        pauses.push(ms);
        attempt += 1;
    }
    assert!(!pauses.is_empty());
    for pair in pauses.windows(2) {
        assert_eq!(pair[1], 2 * pair[0]);
    }
    assert!(matches!(open_retry(0, "no space"), OpenRetry::Never));
    match open_error(&Some("no space".to_string())) {
        PrivchatSDKError::KvStore(m) => assert_eq!(m, "打开 sled 数据库失败: no space"),
        other => panic!("{:?}", other),
    }
}

#[test]
fn the_size_of_a_store_is_estimated() {
    let stats = KvStore::get_stats(3);
    assert_eq!((stats.key_count, stats.tree_size), (3, 768));
}

#[test]
fn what_one_user_stores_is_not_seen_by_another() {
    let dir = tempfile::TempDir::new().unwrap();
    let db = sled::open(dir.path()).unwrap();
    let mut store = KvStore::new();
    let value = JsonValue::from_text(r#"{"n":1}"#).unwrap();
    let read = |store: &KvStore| {
        let tree = db.open_tree(store.current_tree().unwrap()).unwrap();
        KvStore::get(&tree.get("k").unwrap().map(|bytes| bytes.to_vec())).unwrap()
    };

    store.switch_user("a");
    db.open_tree(store.current_tree().unwrap()).unwrap().insert("k", KvStore::set(&value)).unwrap();
    store.switch_user("b");
    assert!(read(&store).is_none());
    let tree = db.open_tree(store.current_tree().unwrap()).unwrap();
    tree.insert("k", KvStore::set(&JsonValue::Null)).unwrap();
    tree.remove("k").unwrap();
    assert_eq!(tree.scan_prefix(b"k").count(), 0);
    store.switch_user("a");
    assert_eq!(read(&store).unwrap().to_text(), value.to_text());
}
