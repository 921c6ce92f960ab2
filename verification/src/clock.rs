//! Wall-clock access, the one nondeterministic input of the subsystem.

use vstd::prelude::*;

verus! {

/// Relies on `chrono::Utc::now` and `chrono::DateTime::timestamp`: the
/// current wall-clock time in whole seconds since the Unix epoch. `Utc::now`
/// panics rather than return if the system clock is before the epoch, and
/// any timestamp it does return was built from a nonnegative count of
/// seconds, so the result is nonnegative.
#[verifier::external_body]
pub(crate) fn now_epoch_seconds() -> (r: i64)
    ensures
        0 <= r,
{
    chrono::Utc::now().timestamp()
}

} // verus!
