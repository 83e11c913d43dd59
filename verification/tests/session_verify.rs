use relay_server::clock::{
    add_millis, elapsed_more_than, now_millis, now_timestamp, seconds_of_millis,
    CLOCK_LIMIT_MILLIS,
};
use relay_server::session_verify::SessionVerifyCache;

#[test]
fn test_cache_miss() {
    let cache = SessionVerifyCache::new();
    assert!(cache.get("nonexistent").is_none());
}

#[test]
fn test_cache_hit_valid() {
    let mut cache = SessionVerifyCache::new();
    cache.set("sess-123".to_string(), "astation-home".to_string(), true, 300);

    let result = cache.get("sess-123");
    assert_eq!(result, Some(true));
}

#[test]
fn test_cache_hit_invalid() {
    let mut cache = SessionVerifyCache::new();
    cache.set("sess-456".to_string(), "astation-home".to_string(), false, 300);

    let result = cache.get("sess-456");
    assert_eq!(result, Some(false));
}

#[test]
fn test_cache_expiry() {
    let mut cache = SessionVerifyCache::new();
    let now = now_timestamp();
    cache.set_at("sess-789".to_string(), "astation-home".to_string(), true, 1, now);

    // Cached at first.
    assert_eq!(cache.get_at("sess-789", now), Some(true));

    // Two seconds later it has run out.
    assert!(cache.get_at("sess-789", now + 2).is_none());
}

#[test]
fn test_cache_remove() {
    let mut cache = SessionVerifyCache::new();
    cache.set("sess-abc".to_string(), "astation-home".to_string(), true, 300);

    assert!(cache.get("sess-abc").is_some());
    cache.remove("sess-abc");
    assert!(cache.get("sess-abc").is_none());
}

#[test]
fn session_verify_test_cleanup_expired() {
    let mut cache = SessionVerifyCache::new();
    let now = now_timestamp();

    cache.set_at("sess-1".to_string(), "astation-1".to_string(), true, 300, now);
    cache.set_at("sess-2".to_string(), "astation-2".to_string(), true, 1, now);

    cache.cleanup_expired_at(now + 2);

    assert!(cache.get_at("sess-1", now + 2).is_some());
    let stats = cache.stats_at(now + 2);
    assert_eq!(stats.total, 1);
}

#[test]
fn test_cache_stats() {
    let mut cache = SessionVerifyCache::new();
    let now = now_timestamp();

    cache.set_at("sess-1".to_string(), "ast-1".to_string(), true, 300, now);
    cache.set_at("sess-2".to_string(), "ast-2".to_string(), false, 300, now);
    cache.set_at("sess-3".to_string(), "ast-3".to_string(), true, 1, now);

    let stats = cache.stats_at(now + 2);
    assert_eq!(stats.total, 3);
    assert_eq!(stats.valid, 1);
    assert_eq!(stats.invalid, 1);
    assert_eq!(stats.expired, 1);
}

#[test]
fn an_entry_lives_for_less_than_its_ttl() {
    let mut cache = SessionVerifyCache::new();
    cache.set_at("s".into(), "a".into(), true, 10, 100);
    assert_eq!(cache.get_at("s", 100), Some(true));
    assert_eq!(cache.get_at("s", 109), Some(true));
    assert_eq!(cache.get_at("s", 110), None);
    // An entry from the future has age zero.
    assert_eq!(cache.get_at("s", 5), Some(true));
    // A time to live of zero is never live.
    cache.set_at("z".into(), "a".into(), true, 0, 100);
    assert_eq!(cache.get_at("z", 100), None);
    assert_eq!(cache.get_at("z", 5), None);
}

#[test]
fn a_read_does_not_evict() {
    let mut cache = SessionVerifyCache::new();
    cache.set_at("s".into(), "a".into(), false, 10, 100);
    assert_eq!(cache.get_at("s", 500), None);
    assert_eq!(cache.stats_at(500).total, 1);
    assert_eq!(cache.stats_at(500).expired, 1);
    assert_eq!(cache.get_at("s", 105), Some(false));
    cache.cleanup_expired_at(500);
    assert_eq!(cache.stats_at(500).total, 0);
    assert_eq!(cache.get_at("s", 105), None);
}

#[test]
fn set_replaces_an_earlier_verdict() {
    let mut cache = SessionVerifyCache::new();
    cache.set_at("s".into(), "a".into(), true, 10, 100);
    cache.set_at("s".into(), "b".into(), false, 20, 200);
    let stats = cache.stats_at(205);
    assert_eq!((stats.total, stats.valid, stats.invalid, stats.expired), (1, 0, 1, 0));
    assert_eq!(cache.get_at("s", 219), Some(false));
    assert_eq!(cache.get_at("s", 220), None);
}

#[test]
fn stats_count_every_entry_once() {
    let mut cache = SessionVerifyCache::new();
    for i in 0..10u64 {
        cache.set_at(format!("s{}", i), "a".into(), i % 2 == 0, i, 100);
    }
    let stats = cache.stats_at(104);
    // Entries with a time to live of 0 to 4 have run out.
    assert_eq!(stats.total, 10);
    assert_eq!(stats.expired, 5);
    assert_eq!(stats.valid, 2);
    assert_eq!(stats.invalid, 3);
    cache.cleanup_expired_at(104);
    let stats = cache.stats_at(104);
    assert_eq!((stats.total, stats.valid, stats.invalid, stats.expired), (5, 2, 3, 0));
    let stats = cache.stats();
    assert_eq!(stats.total, 5);
    assert_eq!(stats.valid + stats.invalid + stats.expired, 5);
}

#[test]
fn seconds_round_down() {
    assert_eq!(seconds_of_millis(0), 0);
    assert_eq!(seconds_of_millis(999), 0);
    assert_eq!(seconds_of_millis(1_000), 1);
    assert_eq!(seconds_of_millis(1_999), 1);
    assert_eq!(seconds_of_millis(-1), -1);
    assert_eq!(seconds_of_millis(-1_000), -1);
    assert_eq!(seconds_of_millis(-1_001), -2);
}

#[test]
fn the_clock_reads_a_time_of_this_century() {
    let millis = now_millis();
    let secs = now_timestamp();
    // After 2020 and before 2100.
    assert!(millis > 1_577_836_800_000 && millis < 4_102_444_800_000);
    assert!((secs as i64 - millis / 1000).abs() <= 1);
}

#[test]
fn the_timestamp_agrees_with_the_wall_clock() {
    let before = now_millis() / 1000;
    let secs = now_timestamp() as i64;
    let after = now_millis() / 1000;
    assert!(before - 1 <= secs && secs <= after + 1);
}

#[test]
fn the_wall_clock_stays_within_its_limit() {
    let now = now_millis();
    assert!(0 <= now && now < CLOCK_LIMIT_MILLIS);
    assert_eq!(CLOCK_LIMIT_MILLIS, (1i64 << 31) * 86_400_000);
}

#[test]
fn instants_are_held_at_the_ends_of_the_range() {
    assert_eq!(add_millis(5, 7), 12);
    assert_eq!(add_millis(5, -7), -2);
    assert_eq!(add_millis(i64::MAX - 1, 7), i64::MAX);
    assert_eq!(add_millis(i64::MIN + 1, -7), i64::MIN);
    assert!(elapsed_more_than(10, 0, 9));
    assert!(!elapsed_more_than(10, 0, 10));
    assert!(elapsed_more_than(i64::MAX, i64::MIN, i64::MAX));
    assert!(!elapsed_more_than(i64::MIN, i64::MAX, 0));
    assert!(elapsed_more_than(0, 5, -6));
}
