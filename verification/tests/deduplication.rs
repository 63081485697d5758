//! Which messages were processed before.

use privchat_sdk::storage::deduplication::DeduplicationManager;

#[test]
fn test_message_dedup() {
    let mut manager = DeduplicationManager::new();

    assert!(!manager.is_duplicate("msg1"));

    manager.mark_as_processed("msg1");

    assert!(manager.is_duplicate("msg1"));

    assert!(!manager.is_duplicate("msg2"));
}

#[test]
fn a_message_is_forgotten_after_its_time() {
    let mut manager = DeduplicationManager::with_config(1_000, 100);
    manager.mark_as_processed_at(7u64, 10);
    manager.mark_as_processed_at("msg1", 500);
    assert_eq!(manager.get_stats().0, 2);
    manager.cleanup_expired_internal(1_200);
    assert!(!manager.is_duplicate(7u64));
    assert!(manager.is_duplicate("msg1"));
    manager.clear();
    assert_eq!(manager.get_stats().0, 0);
}

#[test]
fn test_cleanup_expired() {
    let mut manager = DeduplicationManager::with_config(1_000_000_000, 100);

    manager.mark_as_processed("msg1");
    manager.mark_as_processed("msg2");

    let (count_before, _) = manager.get_stats();
    assert!(count_before >= 2);

    let start = std::time::Instant::now();
    while start.elapsed() < std::time::Duration::from_secs(2) {}

    manager.cleanup_expired();

    let (count_after, _) = manager.get_stats();
    assert_eq!(count_after, 0);
}

#[test]
fn the_cache_is_never_larger_than_it_may_be() {
    let mut manager = DeduplicationManager::with_config(3_600_000_000_000, 2);
    for id in 1..=3u64 {
        manager.mark_as_processed(id);
        assert!(manager.get_stats().0 <= 2);
        assert!(manager.is_duplicate(id));
    }
    assert_eq!(manager.get_stats(), (2, 2));
    assert!(!manager.is_duplicate(1u64));
    manager.mark_as_processed(2u64);
    manager.mark_as_processed(4u64);
    assert!(manager.is_duplicate(2u64));
    assert!(!manager.is_duplicate(3u64));

    let mut none = DeduplicationManager::with_config(1_000, 0);
    none.mark_as_processed_at(1u64, 5);
    assert_eq!(none.get_stats().0, 0);
}
