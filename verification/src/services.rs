//! Domain services: the user directory and the presence event log.

pub mod afk_event;
pub mod user;
