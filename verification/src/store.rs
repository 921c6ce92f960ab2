//! The storage model backing the presence subsystem: a users table and a
//! presence-events table. Rows are never deleted, and every row's id is its
//! position plus one, so the id order is the insertion order.

use crate::services::afk_event::functions::AfkEvent;
use crate::services::user::functions::User;
use vstd::prelude::*;

verus! {

/// The two tables of the persistence schema: `users` and `presence_events`.
pub struct Storage {
    pub users: Vec<User>,
    pub events: Vec<AfkEvent>,
}

impl Storage {
    /// Users hold consecutive ids starting at 1, and external identities are
    /// unique.
    pub open spec fn users_wf(self) -> bool {
        &&& forall|i: int|
            0 <= i < self.users@.len() ==> (#[trigger] self.users@[i]).id == i + 1
        &&& forall|i: int, j: int|
            0 <= i < j < self.users@.len() ==> (#[trigger] self.users@[i]).telegram_uid != (
            #[trigger] self.users@[j]).telegram_uid
    }

    /// Events hold consecutive ids starting at 1, reference an existing user,
    /// and carry nonnegative timestamps.
    pub open spec fn events_wf(self) -> bool {
        &&& forall|i: int|
            0 <= i < self.events@.len() ==> (#[trigger] self.events@[i]).id == i + 1
        &&& forall|i: int|
            0 <= i < self.events@.len() ==> 1 <= (#[trigger] self.events@[i]).user_id
                <= self.users@.len()
        &&& forall|i: int|
            0 <= i < self.events@.len() ==> 0 <= (#[trigger] self.events@[i]).started_at
        &&& forall|i: int|
            0 <= i < self.events@.len() ==> ((#[trigger] self.events@[i]).ended_at matches Some(t)
                ==> 0 <= t)
    }

    pub open spec fn wf(self) -> bool {
        self.users_wf() && self.events_wf()
    }

    /// An empty store, as a fresh deployment starts with.
    pub fn new() -> (s: Self)
        ensures
            s.wf(),
            s.users@ == Seq::<User>::empty(),
            s.events@ == Seq::<AfkEvent>::empty(),
    {
        Storage { users: Vec::new(), events: Vec::new() }
    }
}

} // verus!
