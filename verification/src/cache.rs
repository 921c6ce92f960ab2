//! In-memory index from user id to "currently has an open presence event,
//! and which one". The cache is a derived, rebuildable view over the event
//! store: a missing entry means "not active", which is also the correct
//! default for users never observed. [`CacheState`] is the map itself, held
//! exclusively; [`Cache`] shares one behind a reader-writer lock.

use std::collections::HashMap;
use vstd::prelude::*;
use vstd::rwlock::{RwLock, RwLockPredicate};

verus! {

broadcast use vstd::std_specs::hash::group_hash_axioms;

/// Map from user id to (active flag, id of the backing open event).
pub struct CacheState {
    afk: HashMap<i64, (bool, i32)>,
}

/// What a cache reports for a user: the event id if the user is marked
/// active, absent otherwise (a missing entry counts as "not active").
pub open spec fn cache_lookup(m: Map<i64, (bool, i32)>, user_id: i64) -> Option<i32> {
    if m.contains_key(user_id) && m[user_id].0 {
        Some(m[user_id].1)
    } else {
        None
    }
}

/// The cache after bulk-loading the given (user id, event id) pairs: every
/// listed user is marked active with its event id, pairs later in the list
/// overwriting earlier ones.
pub open spec fn populate(m: Map<i64, (bool, i32)>, pairs: Seq<(i64, i32)>) -> Map<
    i64,
    (bool, i32),
>
    decreases pairs.len(),
{
    if pairs.len() == 0 {
        m
    } else {
        populate(m, pairs.drop_last()).insert(pairs.last().0, (true, pairs.last().1))
    }
}

impl CacheState {
    pub closed spec fn view(&self) -> Map<i64, (bool, i32)> {
        self.afk@
    }

    pub fn new() -> (r: Self)
        ensures
            r@ == Map::<i64, (bool, i32)>::empty(),
    {
        CacheState { afk: HashMap::new() }
    }

    /// Unconditional overwrite of the entry for `user_id`.
    pub fn cache_afk_event_id(&mut self, user_id: i64, status: bool, event_id: i32)
        ensures
            final(self)@ == old(self)@.insert(user_id, (status, event_id)),
    {
        self.afk.insert(user_id, (status, event_id));
    }

    /// Marks every listed user active with the given event id; used once at
    /// process start to seed the cache from the store's open events.
    pub fn populate_afk_cache(&mut self, user_id_event_id_tuple: &[(i64, i32)])
        ensures
            final(self)@ == populate(old(self)@, user_id_event_id_tuple@),
    {
        let n: usize = user_id_event_id_tuple.len();
        let mut i: usize = 0;
        while i < n
            invariant
                n == user_id_event_id_tuple@.len(),
                i <= n,
                self@ == populate(old(self)@, user_id_event_id_tuple@.take(i as int)),
            decreases n - i,
        {
            let pair = user_id_event_id_tuple[i];
            self.afk.insert(pair.0, (true, pair.1));
            i = i + 1;
            proof {
                let prefix = user_id_event_id_tuple@.take(i as int);
                assert(prefix.drop_last() =~= user_id_event_id_tuple@.take(i - 1));
                assert(prefix.last() == user_id_event_id_tuple@[i - 1]);
            }
        }
        proof {
            assert(user_id_event_id_tuple@.take(n as int) =~= user_id_event_id_tuple@);
        }
    }

    /// The backing event id, only if the user is marked active.
    pub fn get_afk_event_id(&self, user_id: i64) -> (r: Option<i32>)
        ensures
            r == cache_lookup(self@, user_id),
    {
        match self.afk.get(&user_id) {
            Some(p) => if p.0 {
                Some(p.1)
            } else {
                None
            },
            None => None,
        }
    }
}

/// The event id of the last pair in the list for a given user, if any: the
/// pair a bulk-load leaves in force for that user.
pub open spec fn last_pair(pairs: Seq<(i64, i32)>, user_id: i64) -> Option<i32>
    decreases pairs.len(),
{
    if pairs.len() == 0 {
        None
    } else if pairs.last().0 == user_id {
        Some(pairs.last().1)
    } else {
        last_pair(pairs.drop_last(), user_id)
    }
}

/// What `populate` leaves for each user: users in the list get (active, last
/// listed event id); users not in the list keep exactly what they had.
pub proof fn lemma_populate_lookup(
    m: Map<i64, (bool, i32)>,
    pairs: Seq<(i64, i32)>,
    user_id: i64,
)
    ensures
        ({
            let m2 = populate(m, pairs);
            match last_pair(pairs, user_id) {
                Some(event_id) => m2.contains_key(user_id) && m2[user_id] == (true, event_id),
                None => (m2.contains_key(user_id) <==> m.contains_key(user_id)) && (m.contains_key(
                    user_id,
                ) ==> m2[user_id] == m[user_id]),
            }
        }),
    decreases pairs.len(),
{
    if pairs.len() > 0 {
        lemma_populate_lookup(m, pairs.drop_last(), user_id);
    }
}

/// A write for one user decides exactly what a lookup for that user reports
/// afterwards, and leaves what lookups for every other user report unchanged.
/// Interleaved writes for different users therefore commute, and for one user
/// the logically last write wins.
pub proof fn lemma_cache_write_frame(
    m: Map<i64, (bool, i32)>,
    user_id: i64,
    status: bool,
    event_id: i32,
    other: i64,
)
    ensures
        cache_lookup(m.insert(user_id, (status, event_id)), user_id) == (if status {
            Some(event_id)
        } else {
            None::<i32>
        }),
        other != user_id ==> cache_lookup(m.insert(user_id, (status, event_id)), other)
            == cache_lookup(m, other),
{
}

/// Which values the shared cache's lock may hold: any map, since the cache is
/// a weak, rebuildable view and no state of it is invalid.
pub struct CachePred {}

impl RwLockPredicate<CacheState> for CachePred {
    open spec fn inv(self, v: CacheState) -> bool {
        true
    }
}

/// A concurrency-safe cache handle: one [`CacheState`] behind a verified
/// reader-writer lock, constructed once at process start and shared by all
/// message handlers. Between any two operations another handler may write,
/// so no operation can promise what a later read sees; entries stay
/// meaningful because the controller serializes transitions per user.
pub struct Cache {
    afk: RwLock<CacheState, CachePred>,
}

impl Cache {
    pub fn new() -> Self {
        Cache { afk: RwLock::new(CacheState::new(), Ghost(CachePred {  })) }
    }

    /// Unconditional overwrite of the entry for `user_id`.
    pub fn cache_afk_event_id(&self, user_id: i64, status: bool, event_id: i32) {
        let (mut state, handle) = self.afk.acquire_write();
        state.cache_afk_event_id(user_id, status, event_id);
        handle.release_write(state);
    }

    /// Marks every listed user active with the given event id.
    pub fn populate_afk_cache(&self, user_id_event_id_tuple: &[(i64, i32)]) {
        let (mut state, handle) = self.afk.acquire_write();
        state.populate_afk_cache(user_id_event_id_tuple);
        handle.release_write(state);
    }

    /// The backing event id, only if the user is marked active. One short
    /// read-locked lookup, with no I/O inside the critical section.
    pub fn get_afk_event_id(&self, user_id: i64) -> Option<i32> {
        let handle = self.afk.acquire_read();
        let r = handle.borrow().get_afk_event_id(user_id);
        handle.release_read();
        r
    }
}

} // verus!
