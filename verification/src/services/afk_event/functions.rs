//! Transitions over the presence event log: creating, reopening and closing
//! events, and the startup listing of open events.
//!
//! Selection rule for "latest event of a kind for a user": order by insertion
//! id descending and take the first; since ids follow insertion order, that
//! is the largest matching index.

use crate::services::afk_event::errors::ServiceError;
use crate::services::user::errors::ServiceError as UserServiceError;
use crate::services::user::functions::{
    find_user_idx, get_by_telegram_user, get_by_telegram_user_or_create, lemma_find_user_idx,
    or_create_user, User,
};
use crate::store::Storage;
use vstd::pervasive::VecAdditionalExecFns;
use vstd::prelude::*;

verus! {

/// The kind of a presence event. The store schema keeps it as an integer
/// discriminator; see [`EventType::code`] and [`EventType::from_code`].
#[derive(Debug, Clone, Copy, PartialEq, Eq, Structural)]
pub enum EventType {
    Sleep,
    Work,
}

impl EventType {
    /// The integer discriminator of the schema for this kind.
    pub open spec fn code_spec(self) -> i32 {
        match self {
            EventType::Sleep => 1,
            EventType::Work => 2,
        }
    }

    pub fn code(&self) -> (c: i32)
        ensures
            c == self.code_spec(),
    {
        match self {
            EventType::Sleep => 1,
            EventType::Work => 2,
        }
    }

    /// The kind a schema discriminator stands for, if it is a known one.
    pub open spec fn from_code_spec(v: i32) -> Option<EventType> {
        if v == 1 {
            Some(EventType::Sleep)
        } else if v == 2 {
            Some(EventType::Work)
        } else {
            None
        }
    }

    pub fn from_code(v: i32) -> (r: Option<EventType>)
        ensures
            r == EventType::from_code_spec(v),
    {
        if v == 1 {
            Some(EventType::Sleep)
        } else if v == 2 {
            Some(EventType::Work)
        } else {
            None
        }
    }
}

/// How a begin-type command treats an earlier event of the same kind:
/// `Continue` reopens the latest one, `New` always inserts a fresh row.
#[derive(Debug, Clone, Copy, PartialEq, Eq, Structural)]
pub enum ActionType {
    Continue,
    New,
}

/// A presence event: a timed interval during which a user has declared
/// themselves away, optionally annotated with free text. An absent `ended_at`
/// means the event is open. Timestamps are seconds since the Unix epoch.
#[derive(Debug, PartialEq, Eq)]
pub struct AfkEvent {
    pub id: i32,
    pub started_at: i64,
    pub ended_at: Option<i64>,
    pub message: Option<String>,
    pub user_id: i32,
    pub event_type: EventType,
}

impl Clone for AfkEvent {
    fn clone(&self) -> (res: Self)
        ensures
            res == *self,
    {
        AfkEvent {
            id: self.id,
            started_at: self.started_at,
            ended_at: self.ended_at,
            message: match &self.message {
                Some(s) => Some(s.clone()),
                None => None,
            },
            user_id: self.user_id,
            event_type: self.event_type,
        }
    }
}

impl AfkEvent {
    /// How long the event lasted, in seconds. Only meaningful once the event
    /// is closed.
    pub fn duration_seconds(&self) -> (d: i64)
        requires
            0 <= self.started_at,
            self.ended_at matches Some(t) && 0 <= t,
        ensures
            self.ended_at matches Some(t) && d == t - self.started_at,
    {
        match self.ended_at {
            Some(t) => t - self.started_at,
            None => 0,
        }
    }
}

/// The same event with its end time replaced.
pub open spec fn with_ended(ev: AfkEvent, ended_at: Option<i64>) -> AfkEvent {
    AfkEvent { ended_at, ..ev }
}

/// A fresh event row appended to a log of n rows: the next consecutive id,
/// started now, open, with the given annotation.
pub open spec fn new_event(
    n: int,
    user_id: i32,
    event_type: EventType,
    message: Option<String>,
    now: i64,
) -> AfkEvent {
    AfkEvent { id: (n + 1) as i32, started_at: now, ended_at: None, message, user_id, event_type }
}

/// Whether an event's kind passes a kind filter (no filter passes all).
pub open spec fn kind_matches(t: EventType, kind: Option<EventType>) -> bool {
    match kind {
        Some(k) => t == k,
        None => true,
    }
}

/// The index of the latest event of the user that passes the kind filter, or
/// -1 if there is none. Since ids follow insertion order, this is the event
/// the "order by id descending, take first" selection rule picks.
pub open spec fn latest_event_idx(
    events: Seq<AfkEvent>,
    user_id: i32,
    kind: Option<EventType>,
) -> int
    decreases events.len(),
{
    if events.len() == 0 {
        -1
    } else if events.last().user_id == user_id && kind_matches(events.last().event_type, kind) {
        events.len() - 1
    } else {
        latest_event_idx(events.drop_last(), user_id, kind)
    }
}

/// `latest_event_idx` returns -1 exactly when no row matches, and otherwise
/// the largest matching index.
pub proof fn lemma_latest_event_idx(events: Seq<AfkEvent>, user_id: i32, kind: Option<EventType>)
    ensures
        ({
            let k = latest_event_idx(events, user_id, kind);
            &&& -1 <= k < events.len()
            &&& k >= 0 ==> events[k].user_id == user_id && kind_matches(events[k].event_type, kind)
            &&& forall|i: int|
                k < i < events.len() ==> !((#[trigger] events[i]).user_id == user_id
                    && kind_matches(events[i].event_type, kind))
        }),
    decreases events.len(),
{
    if events.len() > 0 && !(events.last().user_id == user_id && kind_matches(
        events.last().event_type,
        kind,
    )) {
        lemma_latest_event_idx(events.drop_last(), user_id, kind);
        assert(forall|i: int|
            0 <= i < events.len() - 1 ==> (#[trigger] events[i]) == events.drop_last()[i]);
    }
}

/// The index of the latest event of the user that passes the kind filter.
fn find_latest(events: &Vec<AfkEvent>, user_id: i32, kind: Option<EventType>) -> (r: Option<usize>)
    ensures
        ({
            let k = latest_event_idx(events@, user_id, kind);
            match r {
                Some(i) => i == k && k < events@.len(),
                None => k == -1,
            }
        }),
{
    let mut i: usize = events.len();
    assert(events@.take(i as int) =~= events@);
    while i > 0
        invariant
            i <= events@.len(),
            latest_event_idx(events@, user_id, kind) == latest_event_idx(
                events@.take(i as int),
                user_id,
                kind,
            ),
        decreases i,
    {
        i = i - 1;
        let matches_kind = match kind {
            Some(k) => events[i].event_type == k,
            None => true,
        };
        if events[i].user_id == user_id && matches_kind {
            assert(events@.take(i + 1).last() == events@[i as int]);
            return Some(i);
        }
        assert(events@.take(i + 1).drop_last() =~= events@.take(i as int));
    }
    None
}

/// What a begin transition does to the two tables, and the event it yields:
/// the user is resolved or created first; `Continue` then reopens the user's
/// latest event of the kind if one exists (open or closed), and otherwise,
/// like `New`, appends a fresh open row.
pub open spec fn begin_spec(
    users: Seq<User>,
    events: Seq<AfkEvent>,
    telegram_uid: i64,
    event_type: EventType,
    action_type: ActionType,
    message: Option<String>,
    now: i64,
) -> (Seq<User>, Seq<AfkEvent>, AfkEvent) {
    let users2 = or_create_user(users, telegram_uid).0;
    let u = or_create_user(users, telegram_uid).1;
    let k = match action_type {
        ActionType::Continue => latest_event_idx(events, u.id, Some(event_type)),
        ActionType::New => -1,
    };
    if k >= 0 {
        let ev = with_ended(events[k], None);
        (users2, events.update(k, ev), ev)
    } else {
        let ev = new_event(events.len() as int, u.id, event_type, message, now);
        (users2, events.push(ev), ev)
    }
}

/// What closing an event by id does to the event log: the row gets the given
/// end time; an unknown id leaves the log unchanged.
pub open spec fn end_spec(events: Seq<AfkEvent>, event_id: i32, now: i64) -> Seq<AfkEvent> {
    if 1 <= event_id <= events.len() {
        events.update(event_id - 1, with_ended(events[event_id - 1], Some(now)))
    } else {
        events
    }
}

/// Inserts a fresh open event row for the given (internal) user id.
fn create_event(
    storage: &mut Storage,
    user_id: i32,
    event_type: EventType,
    message: Option<String>,
    now: i64,
) -> (ev: AfkEvent)
    requires
        old(storage).wf(),
        1 <= user_id <= old(storage).users@.len(),
        old(storage).events@.len() < i32::MAX,
        0 <= now,
    ensures
        ev == new_event(old(storage).events@.len() as int, user_id, event_type, message, now),
        final(storage).events@ == old(storage).events@.push(ev),
        final(storage).users@ == old(storage).users@,
        final(storage).wf(),
{
    let id = storage.events.len() as i32 + 1;
    let ev = AfkEvent { id, started_at: now, ended_at: None, message, user_id, event_type };
    let ret = ev.clone();
    storage.events.push(ev);
    ret
}

/// Clears the end time of the event with the given id, reopening it.
/// `NotFound` exactly when no event has that id.
pub fn reset_event(storage: &mut Storage, event_id: i32) -> (r: Result<AfkEvent, ServiceError>)
    requires
        old(storage).wf(),
    ensures
        1 <= event_id <= old(storage).events@.len() ==> ({
            let ev = with_ended(old(storage).events@[event_id - 1], None);
            &&& r matches Ok(x) && x == ev
            &&& final(storage).events@ == old(storage).events@.update(event_id - 1, ev)
        }),
        !(1 <= event_id <= old(storage).events@.len()) ==> (r matches Err(e) && e
            == ServiceError::NotFound) && final(storage).events@ == old(storage).events@,
        final(storage).users@ == old(storage).users@,
        final(storage).wf(),
{
    if event_id >= 1 && event_id as usize <= storage.events.len() {
        let idx = event_id as usize - 1;
        let mut ev = storage.events[idx].clone();
        ev.ended_at = None;
        let ret = ev.clone();
        storage.events.set(idx, ev);
        Ok(ret)
    } else {
        Err(ServiceError::NotFound)
    }
}

/// Closes the event with the given id: sets its end time to `now` and
/// returns the closed row. `NotFound` exactly when no event has that id.
pub fn end_event(storage: &mut Storage, event_id: i32, now: i64) -> (r: Result<
    AfkEvent,
    ServiceError,
>)
    requires
        old(storage).wf(),
        0 <= now,
    ensures
        final(storage).events@ == end_spec(old(storage).events@, event_id, now),
        1 <= event_id <= old(storage).events@.len() ==> (r matches Ok(x) && x == with_ended(
            old(storage).events@[event_id - 1],
            Some(now),
        )),
        !(1 <= event_id <= old(storage).events@.len()) ==> (r matches Err(e) && e
            == ServiceError::NotFound),
        final(storage).users@ == old(storage).users@,
        final(storage).wf(),
{
    if event_id >= 1 && event_id as usize <= storage.events.len() {
        let idx = event_id as usize - 1;
        let mut ev = storage.events[idx].clone();
        ev.ended_at = Some(now);
        let ret = ev.clone();
        storage.events.set(idx, ev);
        Ok(ret)
    } else {
        Err(ServiceError::NotFound)
    }
}

/// The begin transition: resolves or creates the user, then opens an event
/// per `action_type` (see [`begin_spec`]). Never fails on the in-memory
/// tables; the `requires` bounds only reflect the schema's id widths.
pub fn begin_event(
    storage: &mut Storage,
    telegram_uid: i64,
    event_type: EventType,
    action_type: ActionType,
    message: Option<String>,
    now: i64,
) -> (r: Result<AfkEvent, ServiceError>)
    requires
        old(storage).wf(),
        old(storage).users@.len() < i32::MAX,
        old(storage).events@.len() < i32::MAX,
        0 <= now,
    ensures
        ({
            let t = begin_spec(
                old(storage).users@,
                old(storage).events@,
                telegram_uid,
                event_type,
                action_type,
                message,
                now,
            );
            &&& r matches Ok(ev) && ev == t.2
            &&& final(storage).users@ == t.0
            &&& final(storage).events@ == t.1
            &&& final(storage).wf()
        }),
{
    let user = match get_by_telegram_user_or_create(storage, telegram_uid) {
        Ok(u) => u,
        Err(e) => {
            return Err(ServiceError::User(e));
        },
    };
    proof {
        lemma_find_user_idx(old(storage).users@, telegram_uid);
    }
    match action_type {
        ActionType::New => Ok(create_event(storage, user.id, event_type, message, now)),
        ActionType::Continue => {
            match find_latest(&storage.events, user.id, Some(event_type)) {
                Some(i) => {
                    proof {
                        lemma_latest_event_idx(storage.events@, user.id, Some(event_type));
                    }
                    let event_id = storage.events[i].id;
                    reset_event(storage, event_id)
                },
                None => Ok(create_event(storage, user.id, event_type, message, now)),
            }
        },
    }
}

/// Reopens the latest event of the user with the given external identity,
/// whatever its kind. Fails with a user-directory `NotFound` when the user
/// is unknown, and with `NotFound` when the user has no events at all.
pub fn reset_latest_event(storage: &mut Storage, telegram_uid: i64) -> (r: Result<
    AfkEvent,
    ServiceError,
>)
    requires
        old(storage).wf(),
    ensures
        ({
            let k = find_user_idx(old(storage).users@, telegram_uid);
            &&& k == -1 ==> (r matches Err(e) && e == ServiceError::User(UserServiceError::NotFound))
                && final(storage).events@ == old(storage).events@
            &&& k >= 0 ==> ({
                let j = latest_event_idx(old(storage).events@, old(storage).users@[k].id, None);
                &&& j == -1 ==> (r matches Err(e) && e == ServiceError::NotFound)
                    && final(storage).events@ == old(storage).events@
                &&& j >= 0 ==> ({
                    let ev = with_ended(old(storage).events@[j], None);
                    (r matches Ok(x) && x == ev)
                        && final(storage).events@ == old(storage).events@.update(j, ev)
                })
            })
        }),
        final(storage).users@ == old(storage).users@,
        final(storage).wf(),
{
    let user = match get_by_telegram_user(storage, telegram_uid) {
        Ok(u) => u,
        Err(_) => {
            return Err(ServiceError::User(UserServiceError::NotFound));
        },
    };
    proof {
        lemma_find_user_idx(storage.users@, telegram_uid);
    }
    match find_latest(&storage.events, user.id, None) {
        Some(j) => {
            proof {
                lemma_latest_event_idx(storage.events@, user.id, None);
            }
            let event_id = storage.events[j].id;
            reset_event(storage, event_id)
        },
        None => Err(ServiceError::NotFound),
    }
}

/// The external identity a row's internal user id belongs to.
pub open spec fn uid_of(users: Seq<User>, user_id: i32) -> i64 {
    if 1 <= user_id <= users.len() {
        users[user_id - 1].telegram_uid
    } else {
        0
    }
}

/// The (external user id, event id) pairs of the open events that pass the
/// kind filter, in insertion order.
pub open spec fn open_pairs(
    users: Seq<User>,
    events: Seq<AfkEvent>,
    kind: Option<EventType>,
) -> Seq<(i64, i32)>
    decreases events.len(),
{
    if events.len() == 0 {
        Seq::empty()
    } else {
        let rest = open_pairs(users, events.drop_last(), kind);
        let ev = events.last();
        if ev.ended_at is None && kind_matches(ev.event_type, kind) {
            rest.push((uid_of(users, ev.user_id), ev.id))
        } else {
            rest
        }
    }
}

/// Collects the open events that pass the kind filter as (external user id,
/// event id) pairs.
#[verifier::rlimit(30)]
fn collect_open(storage: &Storage, kind: Option<EventType>) -> (r: Vec<(i64, i32)>)
    requires
        storage.wf(),
    ensures
        r@ == open_pairs(storage.users@, storage.events@, kind),
{
    let mut out: Vec<(i64, i32)> = Vec::new();
    let mut i: usize = 0;
    while i < storage.events.len()
        invariant
            storage.wf(),
            i <= storage.events@.len(),
            out@ == open_pairs(storage.users@, storage.events@.take(i as int), kind),
        decreases storage.events@.len() - i,
    {
        let matches_kind = match kind {
            Some(k) => storage.events[i].event_type == k,
            None => true,
        };
        let is_open = storage.events[i].ended_at.is_none();
        if is_open && matches_kind {
            let user_idx = (storage.events[i].user_id - 1) as usize;
            out.push((storage.users[user_idx].telegram_uid, storage.events[i].id));
        }
        i = i + 1;
        proof {
            let prefix = storage.events@.take(i as int);
            assert(prefix.drop_last() =~= storage.events@.take(i - 1));
            assert(prefix.last() == storage.events@[i - 1]);
        }
    }
    assert(storage.events@.take(storage.events@.len() as int) =~= storage.events@);
    out
}

/// All open events, of every kind, as (external user id, event id) pairs:
/// what seeds the cache at startup.
pub fn get_afk_users(storage: &Storage) -> (r: Vec<(i64, i32)>)
    requires
        storage.wf(),
    ensures
        r@ == open_pairs(storage.users@, storage.events@, None),
{
    collect_open(storage, None)
}

/// The open events of one kind, as (external user id, event id) pairs.
pub fn list_open(storage: &Storage, kind: EventType) -> (r: Vec<(i64, i32)>)
    requires
        storage.wf(),
    ensures
        r@ == open_pairs(storage.users@, storage.events@, Some(kind)),
{
    collect_open(storage, Some(kind))
}

} // verus!
