//! Presence event service: the durable, per-user, per-kind log of open and
//! closed away-intervals, and the transitions over it.

pub mod errors;
pub mod functions;
