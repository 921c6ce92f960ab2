use crate::services::user::errors::ServiceError as UserServiceError;
use vstd::prelude::*;

verus! {

/// Errors of the presence event service. `NotFound` means no matching event
/// exists; `User` wraps a failure of the user directory; `Default` carries a
/// storage failure message.
#[derive(Debug, PartialEq, Eq)]
pub enum ServiceError {
    Default(String),
    NotFound,
    User(UserServiceError),
}

} // verus!
