use maldness_bot::cache::CacheState;
use maldness_bot::presence::{begin, begin_now, on_message, on_message_now, reconcile_at_startup};
use maldness_bot::services::afk_event::functions::{ActionType, EventType};
use maldness_bot::store::Storage;

#[test]
fn begin_new_is_cached_for_the_user() {
    let mut storage = Storage::new();
    let mut cache = CacheState::new();
    let ev = begin(
        &mut storage,
        &mut cache,
        7,
        EventType::Work,
        ActionType::New,
        None,
        1000,
    )
    .unwrap();
    assert_eq!(cache.get_afk_event_id(7), Some(ev.id));
}

#[test]
fn example_scenario_sleep_then_morning_message() {
    let mut storage = Storage::new();
    let mut cache = CacheState::new();
    let t0: i64 = 10 * 3600;
    let t1: i64 = 18 * 3600;

    let ev = begin(
        &mut storage,
        &mut cache,
        42,
        EventType::Sleep,
        ActionType::New,
        Some("resting".to_string()),
        t0,
    )
    .unwrap();

    assert_eq!(storage.events.len(), 1);
    let row = &storage.events[0];
    assert_eq!(row.event_type, EventType::Sleep);
    assert_eq!(row.started_at, t0);
    assert_eq!(row.ended_at, None);
    assert_eq!(row.message.as_deref(), Some("resting"));
    assert_eq!(storage.users[(row.user_id - 1) as usize].telegram_uid, 42);
    assert_eq!(cache.get_afk_event_id(42), Some(ev.id));

    let notification = on_message(&mut storage, &mut cache, 42, t1).unwrap();
    assert_eq!(storage.events[0].ended_at, Some(t1));
    assert_eq!(notification.duration_seconds, 8 * 3600);
    assert_eq!(notification.event.message.as_deref(), Some("resting"));
    assert_eq!(cache.get_afk_event_id(42), None);
}

#[test]
fn continue_without_prior_event_acts_like_new() {
    let mut storage_continue = Storage::new();
    let mut cache_continue = CacheState::new();
    let mut storage_new = Storage::new();
    let mut cache_new = CacheState::new();

    let ev_continue = begin(
        &mut storage_continue,
        &mut cache_continue,
        5,
        EventType::Sleep,
        ActionType::Continue,
        Some("zzz".to_string()),
        50,
    )
    .unwrap();
    let ev_new = begin(
        &mut storage_new,
        &mut cache_new,
        5,
        EventType::Sleep,
        ActionType::New,
        Some("zzz".to_string()),
        50,
    )
    .unwrap();

    assert_eq!(ev_continue, ev_new);
    assert_eq!(storage_continue.events, storage_new.events);
    assert_eq!(storage_continue.users, storage_new.users);
    assert_eq!(
        cache_continue.get_afk_event_id(5),
        cache_new.get_afk_event_id(5)
    );
}

#[test]
fn continue_of_other_kind_does_not_reopen() {
    // An open Sleep event does not satisfy a Continue begin for Work.
    let mut storage = Storage::new();
    let mut cache = CacheState::new();
    let sleep_ev = begin(
        &mut storage,
        &mut cache,
        5,
        EventType::Sleep,
        ActionType::New,
        None,
        10,
    )
    .unwrap();
    let work_ev = begin(
        &mut storage,
        &mut cache,
        5,
        EventType::Work,
        ActionType::Continue,
        None,
        20,
    )
    .unwrap();
    assert_ne!(sleep_ev.id, work_ev.id);
    assert_eq!(storage.events.len(), 2);
}

#[test]
fn close_then_reopen_yields_same_event_row() {
    let mut storage = Storage::new();
    let mut cache = CacheState::new();
    let ev = begin(
        &mut storage,
        &mut cache,
        9,
        EventType::Work,
        ActionType::New,
        Some("shift".to_string()),
        100,
    )
    .unwrap();
    let closed = on_message(&mut storage, &mut cache, 9, 200).unwrap();
    assert_eq!(closed.event.id, ev.id);
    assert_eq!(storage.events[0].ended_at, Some(200));

    let reopened = begin(
        &mut storage,
        &mut cache,
        9,
        EventType::Work,
        ActionType::Continue,
        None,
        300,
    )
    .unwrap();
    assert_eq!(reopened.id, ev.id);
    assert_eq!(reopened.started_at, 100);
    assert_eq!(reopened.ended_at, None);
    assert_eq!(reopened.message.as_deref(), Some("shift"));
    assert_eq!(storage.events.len(), 1);
    assert_eq!(cache.get_afk_event_id(9), Some(ev.id));
}

#[test]
fn continue_while_still_open_reuses_the_open_event() {
    let mut storage = Storage::new();
    let mut cache = CacheState::new();
    let first = begin(
        &mut storage,
        &mut cache,
        6,
        EventType::Sleep,
        ActionType::New,
        None,
        10,
    )
    .unwrap();
    let resumed = begin(
        &mut storage,
        &mut cache,
        6,
        EventType::Sleep,
        ActionType::Continue,
        None,
        20,
    )
    .unwrap();
    assert_eq!(resumed.id, first.id);
    assert_eq!(resumed.started_at, 10);
    assert_eq!(storage.events.len(), 1);
}

#[test]
fn second_new_overlaps_and_overwrites_cache_entry() {
    // Inherited behavior: a second New while one is open adds a second row,
    // and the cache, keyed by user alone, tracks the later event.
    let mut storage = Storage::new();
    let mut cache = CacheState::new();
    let first = begin(
        &mut storage,
        &mut cache,
        3,
        EventType::Sleep,
        ActionType::New,
        None,
        10,
    )
    .unwrap();
    let second = begin(
        &mut storage,
        &mut cache,
        3,
        EventType::Sleep,
        ActionType::New,
        None,
        20,
    )
    .unwrap();
    assert_eq!(storage.events.len(), 2);
    assert_eq!(storage.events[0].ended_at, None);
    assert_ne!(first.id, second.id);
    assert_eq!(cache.get_afk_event_id(3), Some(second.id));
}

#[test]
fn message_from_inactive_user_changes_nothing() {
    let mut storage = Storage::new();
    let mut cache = CacheState::new();
    assert!(on_message(&mut storage, &mut cache, 1, 50).is_none());
    assert_eq!(storage.events.len(), 0);
    assert_eq!(cache.get_afk_event_id(1), None);
}

#[test]
fn stale_cache_entry_is_cleared_without_notification() {
    let mut storage = Storage::new();
    let mut cache = CacheState::new();
    cache.cache_afk_event_id(8, true, 12);
    assert!(on_message(&mut storage, &mut cache, 8, 50).is_none());
    assert_eq!(cache.get_afk_event_id(8), None);
}

#[test]
fn reconcile_seeds_cache_from_open_events() {
    let mut storage = Storage::new();
    let mut cache = CacheState::new();
    let sleeper = begin(
        &mut storage,
        &mut cache,
        100,
        EventType::Sleep,
        ActionType::New,
        None,
        10,
    )
    .unwrap();
    begin(
        &mut storage,
        &mut cache,
        200,
        EventType::Work,
        ActionType::New,
        None,
        20,
    )
    .unwrap();
    on_message(&mut storage, &mut cache, 200, 30).unwrap();

    // a fresh cache, as after a restart
    let mut rebuilt = CacheState::new();
    reconcile_at_startup(&storage, &mut rebuilt);
    assert_eq!(rebuilt.get_afk_event_id(100), Some(sleeper.id));
    assert_eq!(rebuilt.get_afk_event_id(200), None);
}

#[test]
fn reconcile_twice_leaves_cache_unchanged() {
    let mut storage = Storage::new();
    let mut cache = CacheState::new();
    begin(
        &mut storage,
        &mut cache,
        1,
        EventType::Sleep,
        ActionType::New,
        None,
        10,
    )
    .unwrap();
    begin(
        &mut storage,
        &mut cache,
        2,
        EventType::Work,
        ActionType::New,
        None,
        20,
    )
    .unwrap();

    let mut once = CacheState::new();
    reconcile_at_startup(&storage, &mut once);
    let mut twice = CacheState::new();
    reconcile_at_startup(&storage, &mut twice);
    reconcile_at_startup(&storage, &mut twice);
    for uid in [1i64, 2, 3] {
        assert_eq!(once.get_afk_event_id(uid), twice.get_afk_event_id(uid));
    }
}

#[test]
fn dual_open_kinds_cache_tracks_one() {
    // A user with both kinds open: the cache, keyed by user alone, reports
    // the Work event after reconciliation (kinds are loaded Sleep first).
    let mut storage = Storage::new();
    let mut cache = CacheState::new();
    begin(
        &mut storage,
        &mut cache,
        5,
        EventType::Sleep,
        ActionType::New,
        None,
        10,
    )
    .unwrap();
    let work = begin(
        &mut storage,
        &mut cache,
        5,
        EventType::Work,
        ActionType::New,
        None,
        20,
    )
    .unwrap();
    let mut rebuilt = CacheState::new();
    reconcile_at_startup(&storage, &mut rebuilt);
    assert_eq!(rebuilt.get_afk_event_id(5), Some(work.id));
}

#[test]
fn clock_stamped_begin_and_close() {
    let mut storage = Storage::new();
    let mut cache = CacheState::new();
    let ev = begin_now(
        &mut storage,
        &mut cache,
        11,
        EventType::Sleep,
        ActionType::New,
        Some("nap".to_string()),
    )
    .unwrap();
    assert!(ev.started_at > 0);
    assert_eq!(cache.get_afk_event_id(11), Some(ev.id));

    let n = on_message_now(&mut storage, &mut cache, 11).unwrap();
    assert_eq!(n.event.id, ev.id);
    assert!(n.duration_seconds >= 0);
    assert_eq!(cache.get_afk_event_id(11), None);
    assert!(storage.events[0].ended_at.is_some());
}
