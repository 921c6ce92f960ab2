use vstd::prelude::*;

verus! {

/// Errors of the user directory. `NotFound` means no user record exists for
/// the given external identity; `Default` carries a storage failure message.
#[derive(Debug, PartialEq, Eq)]
pub enum ServiceError {
    Default(String),
    NotFound,
}

} // verus!
