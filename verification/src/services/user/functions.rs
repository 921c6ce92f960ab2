//! Operations of the user directory. All writes are last-write-wins upserts:
//! a missing user is created with default values first, then updated.

use crate::services::user::errors::ServiceError;
use crate::store::Storage;
use vstd::pervasive::VecAdditionalExecFns;
use vstd::prelude::*;

verus! {

/// A user record: internal id, external chat-platform identity, paying flag,
/// optional last-known location. Coordinates are kept in millionths of a
/// degree so that the record stays in integer arithmetic.
#[derive(Debug, Clone, Copy, PartialEq, Eq)]
pub struct User {
    pub id: i32,
    pub telegram_uid: i64,
    pub is_paying: bool,
    pub latitude_microdeg: Option<i64>,
    pub longitude_microdeg: Option<i64>,
}

/// The index of the user with the given external identity, or -1 if there is
/// none. When external identities are unique (`Storage::users_wf`) at most
/// one index can match, so this is the only one.
pub open spec fn find_user_idx(users: Seq<User>, telegram_uid: i64) -> int
    decreases users.len(),
{
    if users.len() == 0 {
        -1
    } else if users.last().telegram_uid == telegram_uid {
        users.len() - 1
    } else {
        find_user_idx(users.drop_last(), telegram_uid)
    }
}

/// `find_user_idx` returns -1 exactly when no record matches, and otherwise
/// the largest matching index.
pub proof fn lemma_find_user_idx(users: Seq<User>, telegram_uid: i64)
    ensures
        ({
            let k = find_user_idx(users, telegram_uid);
            &&& -1 <= k < users.len()
            &&& k >= 0 ==> users[k].telegram_uid == telegram_uid
            &&& forall|i: int|
                k < i < users.len() ==> (#[trigger] users[i]).telegram_uid != telegram_uid
        }),
    decreases users.len(),
{
    if users.len() > 0 && users.last().telegram_uid != telegram_uid {
        lemma_find_user_idx(users.drop_last(), telegram_uid);
        assert(forall|i: int|
            0 <= i < users.len() - 1 ==> (#[trigger] users[i]) == users.drop_last()[i]);
    }
}

/// The record a fresh insert produces: the next consecutive id, the given
/// external identity, and the paying flag defaulted to false when absent.
pub open spec fn new_user(
    n: int,
    telegram_uid: i64,
    is_paying: Option<bool>,
    latitude_microdeg: Option<i64>,
    longitude_microdeg: Option<i64>,
) -> User {
    User {
        id: (n + 1) as i32,
        telegram_uid,
        is_paying: match is_paying {
            Some(b) => b,
            None => false,
        },
        latitude_microdeg,
        longitude_microdeg,
    }
}

/// The user table after resolving an external identity, together with the
/// record resolved: the existing record if one matches, else a fresh default
/// record appended to the table.
pub open spec fn or_create_user(users: Seq<User>, telegram_uid: i64) -> (Seq<User>, User) {
    let k = find_user_idx(users, telegram_uid);
    if k >= 0 {
        (users, users[k])
    } else {
        let u = new_user(users.len() as int, telegram_uid, None, None, None);
        (users.push(u), u)
    }
}

/// The index of the user with the given external identity, if any.
fn find_user(users: &Vec<User>, telegram_uid: i64) -> (r: Option<usize>)
    ensures
        ({
            let k = find_user_idx(users@, telegram_uid);
            match r {
                Some(i) => i == k && k < users@.len(),
                None => k == -1,
            }
        }),
{
    let mut i: usize = users.len();
    assert(users@.take(i as int) =~= users@);
    while i > 0
        invariant
            i <= users@.len(),
            find_user_idx(users@, telegram_uid) == find_user_idx(
                users@.take(i as int),
                telegram_uid,
            ),
        decreases i,
    {
        i = i - 1;
        if users[i].telegram_uid == telegram_uid {
            assert(users@.take(i + 1).last() == users@[i as int]);
            return Some(i);
        }
        assert(users@.take(i + 1).drop_last() =~= users@.take(i as int));
    }
    None
}

/// Looks a user up by external identity; `NotFound` exactly when no record
/// with that identity exists.
pub fn get_by_telegram_user(storage: &Storage, telegram_uid: i64) -> (r: Result<
    User,
    ServiceError,
>)
    ensures
        ({
            let k = find_user_idx(storage.users@, telegram_uid);
            match r {
                Ok(u) => k >= 0 && u == storage.users@[k],
                Err(e) => k == -1 && e == ServiceError::NotFound,
            }
        }),
{
    match find_user(&storage.users, telegram_uid) {
        Some(i) => Ok(storage.users[i]),
        None => Err(ServiceError::NotFound),
    }
}

/// Inserts a fresh user record. The caller must have checked that the
/// external identity is not taken yet, as the schema keeps it unique.
pub fn create(
    storage: &mut Storage,
    telegram_uid: i64,
    is_paying: Option<bool>,
    latitude_microdeg: Option<i64>,
    longitude_microdeg: Option<i64>,
) -> (r: Result<User, ServiceError>)
    requires
        old(storage).wf(),
        old(storage).users@.len() < i32::MAX,
        find_user_idx(old(storage).users@, telegram_uid) == -1,
    ensures
        ({
            let u = new_user(
                old(storage).users@.len() as int,
                telegram_uid,
                is_paying,
                latitude_microdeg,
                longitude_microdeg,
            );
            &&& r matches Ok(x) && x == u
            &&& final(storage).users@ == old(storage).users@.push(u)
            &&& final(storage).events@ == old(storage).events@
            &&& final(storage).wf()
        }),
{
    let id = storage.users.len() as i32 + 1;
    let u = User {
        id,
        telegram_uid,
        is_paying: match is_paying {
            Some(b) => b,
            None => false,
        },
        latitude_microdeg,
        longitude_microdeg,
    };
    storage.users.push(u);
    proof {
        lemma_find_user_idx(old(storage).users@, telegram_uid);
    }
    Ok(u)
}

/// Resolves an external identity to a user record, creating a default record
/// on first use. Fails only where the underlying store would fail, which the
/// in-memory table never does.
pub fn get_by_telegram_user_or_create(storage: &mut Storage, telegram_uid: i64) -> (r: Result<
    User,
    ServiceError,
>)
    requires
        old(storage).wf(),
        old(storage).users@.len() < i32::MAX,
    ensures
        ({
            let (users2, u) = or_create_user(old(storage).users@, telegram_uid);
            &&& r matches Ok(x) && x == u
            &&& final(storage).users@ == users2
            &&& final(storage).events@ == old(storage).events@
            &&& final(storage).wf()
        }),
{
    match find_user(&storage.users, telegram_uid) {
        Some(i) => Ok(storage.users[i]),
        None => create(storage, telegram_uid, None, None, None),
    }
}

/// Upserts the user for the given external identity, then records the paying
/// flag; returns the updated record.
pub fn set_paying_status(storage: &mut Storage, telegram_uid: i64, is_paying: bool) -> (r: Result<
    User,
    ServiceError,
>)
    requires
        old(storage).wf(),
        old(storage).users@.len() < i32::MAX,
    ensures
        ({
            let (users2, u) = or_create_user(old(storage).users@, telegram_uid);
            let u2 = User { is_paying, ..u };
            &&& r matches Ok(x) && x == u2
            &&& final(storage).users@ == users2.update(u.id - 1, u2)
            &&& final(storage).events@ == old(storage).events@
            &&& final(storage).wf()
        }),
{
    let u = match get_by_telegram_user_or_create(storage, telegram_uid) {
        Ok(u) => u,
        Err(e) => {
            return Err(e);
        },
    };
    proof {
        lemma_find_user_idx(old(storage).users@, telegram_uid);
        assert(1 <= u.id <= storage.users@.len());
        assert(storage.users@[u.id - 1] == u);
    }
    let idx = (u.id - 1) as usize;
    let u2 = User { is_paying, ..u };
    storage.users.set(idx, u2);
    Ok(u2)
}

/// Upserts the user for the given external identity, then records the given
/// coordinates; returns the updated record.
pub fn set_location(
    storage: &mut Storage,
    telegram_uid: i64,
    latitude_microdeg: i64,
    longitude_microdeg: i64,
) -> (r: Result<User, ServiceError>)
    requires
        old(storage).wf(),
        old(storage).users@.len() < i32::MAX,
    ensures
        ({
            let (users2, u) = or_create_user(old(storage).users@, telegram_uid);
            let u2 = User {
                latitude_microdeg: Some(latitude_microdeg),
                longitude_microdeg: Some(longitude_microdeg),
                ..u
            };
            &&& r matches Ok(x) && x == u2
            &&& final(storage).users@ == users2.update(u.id - 1, u2)
            &&& final(storage).events@ == old(storage).events@
            &&& final(storage).wf()
        }),
{
    let u = match get_by_telegram_user_or_create(storage, telegram_uid) {
        Ok(u) => u,
        Err(e) => {
            return Err(e);
        },
    };
    proof {
        lemma_find_user_idx(old(storage).users@, telegram_uid);
        assert(1 <= u.id <= storage.users@.len());
        assert(storage.users@[u.id - 1] == u);
    }
    let idx = (u.id - 1) as usize;
    let u2 = User {
        latitude_microdeg: Some(latitude_microdeg),
        longitude_microdeg: Some(longitude_microdeg),
        ..u
    };
    storage.users.set(idx, u2);
    Ok(u2)
}

} // verus!
