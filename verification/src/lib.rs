//! Presence event tracking for a chat bot: an event store of timed
//! away-intervals (sleep or work), a cache of who currently has an open
//! event, and the controller and interception logic that keep the two
//! consistent.

pub mod cache;
pub mod chat;
pub mod clock;
pub mod presence;
pub mod services;
pub mod store;
pub mod weather;
