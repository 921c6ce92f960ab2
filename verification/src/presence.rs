//! The presence controller and the interception hook: begin/continue/end
//! transitions that keep the cache and the store consistent, the startup
//! reconciliation of the cache from the store, and the auto-close performed
//! on every inbound message.
//!
//! All functions here take the store and the cache map exclusively: the host
//! process serializes transitions per user (spec-wise, any serialization that
//! hands each transition exclusive access is enough), and the shared
//! [`crate::cache::Cache`] handle is how unrelated readers look entries up.

use crate::cache::{cache_lookup, lemma_populate_lookup, populate, CacheState};
use crate::services::afk_event::errors::ServiceError;
use crate::services::afk_event::functions::{
    begin_event, begin_spec, end_spec, end_event, latest_event_idx, lemma_latest_event_idx,
    list_open, new_event, open_pairs, with_ended, ActionType, AfkEvent, EventType,
};
use crate::services::user::functions::{find_user_idx, or_create_user, User};
use crate::store::Storage;
use vstd::prelude::*;

verus! {

/// What the interception hook hands to the notification collaborator: the
/// closed event, with its optional user-supplied message, and how long it
/// lasted in seconds.
#[derive(Debug, PartialEq, Eq)]
pub struct ClosedEventNotification {
    pub event: AfkEvent,
    pub duration_seconds: i64,
}

/// What a controller begin does: the store transition of [`begin_spec`],
/// followed by marking the user active in the cache with the resulting
/// event id.
pub open spec fn begin_full_spec(
    users: Seq<User>,
    events: Seq<AfkEvent>,
    cache: Map<i64, (bool, i32)>,
    telegram_uid: i64,
    event_type: EventType,
    action_type: ActionType,
    message: Option<String>,
    now: i64,
) -> (Seq<User>, Seq<AfkEvent>, Map<i64, (bool, i32)>, AfkEvent) {
    let t = begin_spec(users, events, telegram_uid, event_type, action_type, message, now);
    (t.0, t.1, cache.insert(telegram_uid, (true, t.2.id)), t.2)
}

/// The controller's begin transition: writes through the store first, then
/// the cache. Never fails on the in-memory tables; the `requires` bounds
/// only reflect the schema's id widths.
pub fn begin(
    storage: &mut Storage,
    cache: &mut CacheState,
    telegram_uid: i64,
    event_type: EventType,
    action_type: ActionType,
    message: Option<String>,
    now: i64,
) -> (r: Result<AfkEvent, ServiceError>)
    requires
        old(storage).wf(),
        old(storage).users@.len() < i32::MAX,
        old(storage).events@.len() < i32::MAX,
        0 <= now,
    ensures
        ({
            let t = begin_full_spec(
                old(storage).users@,
                old(storage).events@,
                old(cache)@,
                telegram_uid,
                event_type,
                action_type,
                message,
                now,
            );
            &&& r matches Ok(ev) && ev == t.3
            &&& final(storage).users@ == t.0
            &&& final(storage).events@ == t.1
            &&& final(cache)@ == t.2
            &&& final(storage).wf()
            &&& cache_lookup(final(cache)@, telegram_uid) == Some(t.3.id)
        }),
{
    let ev = match begin_event(storage, telegram_uid, event_type, action_type, message, now) {
        Ok(ev) => ev,
        Err(e) => {
            return Err(e);
        },
    };
    cache.cache_afk_event_id(telegram_uid, true, ev.id);
    Ok(ev)
}

/// The cache after reconciling it from the store: the open events of every
/// kind the system tracks, bulk-loaded kind by kind.
pub open spec fn reconcile_spec(
    users: Seq<User>,
    events: Seq<AfkEvent>,
    cache: Map<i64, (bool, i32)>,
) -> Map<i64, (bool, i32)> {
    populate(
        populate(cache, open_pairs(users, events, Some(EventType::Sleep))),
        open_pairs(users, events, Some(EventType::Work)),
    )
}

/// Rebuilds the cache from the store's open events. Must run to completion
/// before messages are accepted, or already-open events would miss their
/// auto-close.
pub fn reconcile_at_startup(storage: &Storage, cache: &mut CacheState)
    requires
        storage.wf(),
    ensures
        final(cache)@ == reconcile_spec(storage.users@, storage.events@, old(cache)@),
{
    let sleepers = list_open(storage, EventType::Sleep);
    cache.populate_afk_cache(sleepers.as_slice());
    let workers = list_open(storage, EventType::Work);
    cache.populate_afk_cache(workers.as_slice());
}

/// The event log after the interception hook ran for a user: the cached
/// event, if the user was active, gets closed at `now`.
pub open spec fn on_message_events_spec(
    events: Seq<AfkEvent>,
    cache: Map<i64, (bool, i32)>,
    telegram_uid: i64,
    now: i64,
) -> Seq<AfkEvent> {
    match cache_lookup(cache, telegram_uid) {
        None => events,
        Some(event_id) => end_spec(events, event_id, now),
    }
}

/// The cache after the interception hook ran for a user: an active user is
/// marked inactive, the entry keeping the now-closed event's id; an inactive
/// user's entry is untouched.
pub open spec fn on_message_cache_spec(
    cache: Map<i64, (bool, i32)>,
    telegram_uid: i64,
) -> Map<i64, (bool, i32)> {
    match cache_lookup(cache, telegram_uid) {
        None => cache,
        Some(event_id) => cache.insert(telegram_uid, (false, event_id)),
    }
}

/// What the interception hook yields for a user: a notification exactly when
/// the user was active and the cached event id still names a stored event.
pub open spec fn on_message_result_spec(
    events: Seq<AfkEvent>,
    cache: Map<i64, (bool, i32)>,
    telegram_uid: i64,
    now: i64,
) -> Option<ClosedEventNotification> {
    match cache_lookup(cache, telegram_uid) {
        None => None,
        Some(event_id) => if 1 <= event_id <= events.len() {
            let ev = with_ended(events[event_id - 1], Some(now));
            Some(
                ClosedEventNotification {
                    event: ev,
                    duration_seconds: (now - events[event_id - 1].started_at) as i64,
                },
            )
        } else {
            None
        },
    }
}

/// The interception hook, invoked on every inbound message: if the cache
/// reports the user active, closes the cached event in the store, marks the
/// user inactive, and yields the closed event with its duration. A stale
/// cache entry (event gone from the store) is benign: the user is still
/// marked inactive, and nothing is yielded.
pub fn on_message(
    storage: &mut Storage,
    cache: &mut CacheState,
    telegram_uid: i64,
    now: i64,
) -> (r: Option<ClosedEventNotification>)
    requires
        old(storage).wf(),
        0 <= now,
    ensures
        final(storage).events@ == on_message_events_spec(
            old(storage).events@,
            old(cache)@,
            telegram_uid,
            now,
        ),
        final(cache)@ == on_message_cache_spec(old(cache)@, telegram_uid),
        r == on_message_result_spec(old(storage).events@, old(cache)@, telegram_uid, now),
        final(storage).users@ == old(storage).users@,
        final(storage).wf(),
        cache_lookup(final(cache)@, telegram_uid) is None,
        r matches Some(n) ==> n.event.ended_at == Some(now) && n.duration_seconds == now
            - n.event.started_at,
{
    let event_id: i32 = match cache.get_afk_event_id(telegram_uid) {
        Some(event_id) => event_id,
        None => {
            return None;
        },
    };
    let result = end_event(storage, event_id, now);
    cache.cache_afk_event_id(telegram_uid, false, event_id);
    match result {
        Ok(ev) => {
            let duration_seconds: i64 = ev.duration_seconds();
            Some(ClosedEventNotification { event: ev, duration_seconds })
        },
        Err(_) => None,
    }
}

/// The controller's begin stamped with the current wall clock: what the
/// command layer calls. Whatever instant the clock returns, the transition
/// is exactly a begin at the returned event's start time: a fresh event is
/// stamped with the clock, a reopened one keeps its original start, which
/// the begin transition never reads.
pub fn begin_now(
    storage: &mut Storage,
    cache: &mut CacheState,
    telegram_uid: i64,
    event_type: EventType,
    action_type: ActionType,
    message: Option<String>,
) -> (r: Result<AfkEvent, ServiceError>)
    requires
        old(storage).wf(),
        old(storage).users@.len() < i32::MAX,
        old(storage).events@.len() < i32::MAX,
    ensures
        r matches Ok(ev) && ({
            let t = begin_full_spec(
                old(storage).users@,
                old(storage).events@,
                old(cache)@,
                telegram_uid,
                event_type,
                action_type,
                message,
                ev.started_at,
            );
            &&& 0 <= ev.started_at
            &&& ev == t.3
            &&& final(storage).users@ == t.0
            &&& final(storage).events@ == t.1
            &&& final(cache)@ == t.2
            &&& final(storage).wf()
            &&& cache_lookup(final(cache)@, telegram_uid) == Some(ev.id)
        }),
{
    let now: i64 = crate::clock::now_epoch_seconds();
    proof {
        let u = or_create_user(old(storage).users@, telegram_uid).1;
        lemma_latest_event_idx(old(storage).events@, u.id, Some(event_type));
    }
    begin(storage, cache, telegram_uid, event_type, action_type, message, now)
}

/// The interception hook stamped with the current wall clock: what the
/// message loop calls. An active user's cached event is closed at the
/// instant the clock returned, which the notification's end time carries.
pub fn on_message_now(storage: &mut Storage, cache: &mut CacheState, telegram_uid: i64) -> (r:
    Option<ClosedEventNotification>)
    requires
        old(storage).wf(),
    ensures
        final(storage).users@ == old(storage).users@,
        final(storage).wf(),
        final(cache)@ == on_message_cache_spec(old(cache)@, telegram_uid),
        cache_lookup(final(cache)@, telegram_uid) is None,
        r is Some <==> (cache_lookup(old(cache)@, telegram_uid) matches Some(event_id) && 1
            <= event_id <= old(storage).events@.len()),
        r matches Some(n) ==> (n.event.ended_at matches Some(t1) && 0 <= t1 && n.duration_seconds
            == t1 - n.event.started_at && final(storage).events@ == on_message_events_spec(
            old(storage).events@,
            old(cache)@,
            telegram_uid,
            t1,
        ) && r == on_message_result_spec(old(storage).events@, old(cache)@, telegram_uid, t1)),
        r is None ==> final(storage).events@ == old(storage).events@,
{
    let now: i64 = crate::clock::now_epoch_seconds();
    on_message(storage, cache, telegram_uid, now)
}

/// After a begin for a user, a cache lookup for that user reports exactly
/// the event the begin yielded.
pub proof fn lemma_begin_then_get(
    users: Seq<User>,
    events: Seq<AfkEvent>,
    cache: Map<i64, (bool, i32)>,
    telegram_uid: i64,
    event_type: EventType,
    action_type: ActionType,
    message: Option<String>,
    now: i64,
)
    ensures
        ({
            let t = begin_full_spec(
                users,
                events,
                cache,
                telegram_uid,
                event_type,
                action_type,
                message,
                now,
            );
            cache_lookup(t.2, telegram_uid) == Some(t.3.id)
        }),
{
}


/// Reconciliation is idempotent: with no intervening mutations, running it a
/// second time leaves the cache in the same observable state.
pub proof fn lemma_reconcile_idempotent(
    users: Seq<User>,
    events: Seq<AfkEvent>,
    cache: Map<i64, (bool, i32)>,
)
    ensures
        reconcile_spec(users, events, reconcile_spec(users, events, cache)) == reconcile_spec(
            users,
            events,
            cache,
        ),
{
    let s = open_pairs(users, events, Some(EventType::Sleep));
    let w = open_pairs(users, events, Some(EventType::Work));
    let c1 = reconcile_spec(users, events, cache);
    let c2 = reconcile_spec(users, events, c1);
    assert forall|k: i64|
        (#[trigger] c2.contains_key(k) <==> c1.contains_key(k)) && (c1.contains_key(k) ==> c2[k]
            == c1[k]) by {
        lemma_populate_lookup(cache, s, k);
        lemma_populate_lookup(populate(cache, s), w, k);
        lemma_populate_lookup(c1, s, k);
        lemma_populate_lookup(populate(c1, s), w, k);
    }
    assert(c2 =~= c1);
}

/// A `Continue` begin for a user with no event of the kind behaves exactly
/// like a `New` begin: same store side effect, same cache state, same
/// returned event.
pub proof fn lemma_continue_on_absent(
    users: Seq<User>,
    events: Seq<AfkEvent>,
    cache: Map<i64, (bool, i32)>,
    telegram_uid: i64,
    event_type: EventType,
    message: Option<String>,
    now: i64,
)
    requires
        forall|i: int|
            0 <= i < events.len() ==> !((#[trigger] events[i]).user_id == or_create_user(
                users,
                telegram_uid,
            ).1.id && events[i].event_type == event_type),
    ensures
        begin_full_spec(
            users,
            events,
            cache,
            telegram_uid,
            event_type,
            ActionType::Continue,
            message,
            now,
        ) == begin_full_spec(
            users,
            events,
            cache,
            telegram_uid,
            event_type,
            ActionType::New,
            message,
            now,
        ),
{
    let u = or_create_user(users, telegram_uid).1;
    lemma_latest_event_idx(events, u.id, Some(event_type));
    assert(latest_event_idx(events, u.id, Some(event_type)) == -1);
}

/// Close-then-reopen round trip: begin(New), end, begin(Continue) reopens
/// the very row the first begin created, with its end time cleared again and
/// no new row added; the reopened event keeps its original start time and
/// message.
pub proof fn lemma_close_then_reopen(
    users: Seq<User>,
    events: Seq<AfkEvent>,
    telegram_uid: i64,
    event_type: EventType,
    message: Option<String>,
    message2: Option<String>,
    t0: i64,
    t1: i64,
    t2: i64,
)
    requires
        users.len() < i32::MAX,
        events.len() < i32::MAX,
    ensures
        ({
            let q1 = begin_spec(
                users,
                events,
                telegram_uid,
                event_type,
                ActionType::New,
                message,
                t0,
            );
            let events3 = end_spec(q1.1, q1.2.id, t1);
            let q2 = begin_spec(
                q1.0,
                events3,
                telegram_uid,
                event_type,
                ActionType::Continue,
                message2,
                t2,
            );
            &&& q2.2 == q1.2
            &&& q2.1 == q1.1
            &&& q2.0 == q1.0
        }),
{
    let u = or_create_user(users, telegram_uid).1;
    let q1 = begin_spec(users, events, telegram_uid, event_type, ActionType::New, message, t0);
    let users2 = q1.0;
    let events2 = q1.1;
    let ev = q1.2;
    assert(ev == new_event(events.len() as int, u.id, event_type, message, t0));
    assert(ev.id == events.len() + 1);
    assert(events2 == events.push(ev));

    let events3 = end_spec(events2, ev.id, t1);
    let closed = with_ended(ev, Some(t1));
    assert(events3 == events2.update(events.len() as int, closed));
    assert(events3.last() == closed);

    // the second begin resolves the same user record
    if find_user_idx(users, telegram_uid) >= 0 {
        assert(or_create_user(users2, telegram_uid) == (users2, u));
    } else {
        assert(users2.last() == u);
        assert(find_user_idx(users2, telegram_uid) == users2.len() - 1);
        assert(or_create_user(users2, telegram_uid) == (users2, u));
    }

    // and its latest event of the kind is the row the first begin created
    assert(latest_event_idx(events3, u.id, Some(event_type)) == events3.len() - 1);

    let q2 = begin_spec(
        users2,
        events3,
        telegram_uid,
        event_type,
        ActionType::Continue,
        message2,
        t2,
    );
    assert(q2.2 == with_ended(events3[events.len() as int], None));
    assert(q2.2 == ev);
    assert(q2.1 =~= events2);
}

/// Auto-close correctness: a user marked active in the cache with a stored
/// event, on any inbound message at `now`, ends up with that event closed at
/// `now`, the cache no longer reporting the user active, and a notification
/// carrying the elapsed duration.
pub proof fn lemma_auto_close(
    events: Seq<AfkEvent>,
    cache: Map<i64, (bool, i32)>,
    telegram_uid: i64,
    event_id: i32,
    now: i64,
)
    requires
        cache_lookup(cache, telegram_uid) == Some(event_id),
        1 <= event_id <= events.len(),
        0 <= events[event_id - 1].started_at,
        0 <= now,
    ensures
        ({
            let events2 = on_message_events_spec(events, cache, telegram_uid, now);
            let cache2 = on_message_cache_spec(cache, telegram_uid);
            let r = on_message_result_spec(events, cache, telegram_uid, now);
            &&& events2.len() == events.len()
            &&& events2[event_id - 1].ended_at == Some(now)
            &&& cache_lookup(cache2, telegram_uid) is None
            &&& r matches Some(n) && n.event.id == events[event_id - 1].id && n.duration_seconds
                == now - events[event_id - 1].started_at
        }),
{
}

} // verus!
