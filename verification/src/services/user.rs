//! User directory: maps an external chat-platform identity to an internal
//! user record, creating one on first use.

pub mod errors;
pub mod functions;
