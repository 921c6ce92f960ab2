use maldness_bot::cache::{Cache, CacheState};

#[test]
fn missing_entry_means_not_active() {
    let cache = CacheState::new();
    assert_eq!(cache.get_afk_event_id(1), None);
}

#[test]
fn set_then_get_returns_backing_event() {
    let mut cache = CacheState::new();
    cache.cache_afk_event_id(1, true, 41);
    assert_eq!(cache.get_afk_event_id(1), Some(41));
}

#[test]
fn inactive_entry_reports_nothing() {
    let mut cache = CacheState::new();
    cache.cache_afk_event_id(1, true, 41);
    cache.cache_afk_event_id(1, false, 41);
    assert_eq!(cache.get_afk_event_id(1), None);
}

#[test]
fn last_write_wins_per_user() {
    let mut cache = CacheState::new();
    cache.cache_afk_event_id(1, true, 41);
    cache.cache_afk_event_id(2, true, 52);
    cache.cache_afk_event_id(1, true, 43);
    assert_eq!(cache.get_afk_event_id(1), Some(43));
    assert_eq!(cache.get_afk_event_id(2), Some(52));
}

#[test]
fn populate_marks_listed_users_active() {
    let mut cache = CacheState::new();
    cache.cache_afk_event_id(9, false, 1);
    cache.populate_afk_cache(&[(1, 10), (2, 20), (1, 30)]);
    assert_eq!(cache.get_afk_event_id(1), Some(30));
    assert_eq!(cache.get_afk_event_id(2), Some(20));
    assert_eq!(cache.get_afk_event_id(9), None);
}

#[test]
fn shared_cache_supports_the_same_operations() {
    let cache = Cache::new();
    assert_eq!(cache.get_afk_event_id(5), None);
    cache.cache_afk_event_id(5, true, 77);
    assert_eq!(cache.get_afk_event_id(5), Some(77));
    cache.populate_afk_cache(&[(6, 78)]);
    assert_eq!(cache.get_afk_event_id(6), Some(78));
    cache.cache_afk_event_id(5, false, 77);
    assert_eq!(cache.get_afk_event_id(5), None);
}

#[test]
fn interleaved_writes_stay_consistent_per_user() {
    // Writes for the same and different users, interleaved as concurrent
    // handlers would issue them: every operation completes, and each user's
    // entry is the one its logically last write left.
    let cache = Cache::new();
    for round in 0..100i32 {
        for user in 0..8i64 {
            cache.cache_afk_event_id(user, true, round);
            let _ = cache.get_afk_event_id(user);
            let _ = cache.get_afk_event_id((user + 1) % 8);
        }
    }
    for user in 0..8i64 {
        cache.cache_afk_event_id(user, true, 1000 + user as i32);
    }
    for user in 0..8i64 {
        assert_eq!(cache.get_afk_event_id(user), Some(1000 + user as i32));
    }
}
