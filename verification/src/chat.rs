//! The allowed-update policy: which chats the bot answers in, decided from
//! the chat kind, the chat id, the sender, and the configured allow-lists.
//! The decision is pure; unpacking the inbound message and wording the
//! refusal are the transport layer's business.

use std::collections::HashMap;
use vstd::prelude::*;

verus! {

broadcast use vstd::std_specs::hash::group_hash_axioms;

/// The kinds of chat the transport delivers updates from.
#[derive(Debug, Clone, Copy, PartialEq, Eq, Structural)]
pub enum ChatKind {
    Private,
    Group,
    Supergroup,
    Channel,
}

/// Why an update is refused: channels are never served; a chat can be listed
/// as disallowed for its kind; or the chat is unlisted and the configuration
/// refuses unspecified chats.
#[derive(Debug, Clone, Copy, PartialEq, Eq, Structural)]
pub enum DisallowReason {
    ChannelsUnsupported,
    ChatDisallowed,
    UnspecifiedDisallowed,
}

/// The configured policy: the admin list, the default for unlisted chats
/// (allow, when not configured), and one optional allow-list per chat kind.
/// An entry for chat id 0 in a list is a wildcard that allows every chat of
/// that kind.
pub struct ChatPolicy {
    pub admins: Vec<u64>,
    pub allow_unspecified: Option<bool>,
    pub private: Option<HashMap<i64, bool>>,
    pub group: Option<HashMap<i64, bool>>,
    pub supergroup: Option<HashMap<i64, bool>>,
}

/// The allow-list configured for a chat kind, if any.
pub open spec fn chat_map_view(p: ChatPolicy, kind: ChatKind) -> Option<Map<i64, bool>> {
    match kind {
        ChatKind::Private => match p.private {
            Some(m) => Some(m@),
            None => None,
        },
        ChatKind::Group => match p.group {
            Some(m) => Some(m@),
            None => None,
        },
        ChatKind::Supergroup => match p.supergroup {
            Some(m) => Some(m@),
            None => None,
        },
        ChatKind::Channel => None,
    }
}

/// The policy decision: channels are refused outright; admins pass always;
/// otherwise the kind's allow-list decides (wildcard 0 allows all, a listed
/// chat goes by its entry), and an unlisted chat goes by `allow_unspecified`.
pub open spec fn check_spec(
    p: ChatPolicy,
    kind: ChatKind,
    chat_id: i64,
    from_id: u64,
) -> Option<DisallowReason> {
    if kind is Channel {
        Some(DisallowReason::ChannelsUnsupported)
    } else if p.admins@.contains(from_id) {
        None
    } else {
        let unspecified_allowed = match p.allow_unspecified {
            Some(b) => b,
            None => true,
        };
        match chat_map_view(p, kind) {
            Some(m) => if m.contains_key(0) {
                None
            } else if m.contains_key(chat_id) {
                if m[chat_id] {
                    None
                } else {
                    Some(DisallowReason::ChatDisallowed)
                }
            } else if unspecified_allowed {
                None
            } else {
                Some(DisallowReason::UnspecifiedDisallowed)
            },
            None => if unspecified_allowed {
                None
            } else {
                Some(DisallowReason::UnspecifiedDisallowed)
            },
        }
    }
}

impl ChatPolicy {
    /// Whether the sender is a configured admin.
    pub fn is_admin(&self, user_id: u64) -> (r: bool)
        ensures
            r == self.admins@.contains(user_id),
    {
        let mut i: usize = 0;
        while i < self.admins.len()
            invariant
                i <= self.admins@.len(),
                forall|j: int| 0 <= j < i ==> self.admins@[j] != user_id,
            decreases self.admins@.len() - i,
        {
            if self.admins[i] == user_id {
                assert(self.admins@[i as int] == user_id);
                return true;
            }
            i = i + 1;
        }
        false
    }

    /// Decides whether an update may be handled; `None` means allowed, and
    /// otherwise the reason the refusal should report.
    pub fn check_for_allowed_update(&self, kind: ChatKind, chat_id: i64, from_id: u64) -> (r:
        Option<DisallowReason>)
        ensures
            r == check_spec(*self, kind, chat_id, from_id),
    {
        if let ChatKind::Channel = kind {
            return Some(DisallowReason::ChannelsUnsupported);
        }
        if self.is_admin(from_id) {
            return None;
        }
        let unspecified_allowed: bool = match self.allow_unspecified {
            Some(b) => b,
            None => true,
        };
        let map = match kind {
            ChatKind::Private => &self.private,
            ChatKind::Group => &self.group,
            ChatKind::Supergroup => &self.supergroup,
            ChatKind::Channel => &self.private,
        };
        match map {
            Some(m) => {
                if m.contains_key(&0) {
                    None
                } else {
                    match m.get(&chat_id) {
                        Some(allowed) => if *allowed {
                            None
                        } else {
                            Some(DisallowReason::ChatDisallowed)
                        },
                        None => if unspecified_allowed {
                            None
                        } else {
                            Some(DisallowReason::UnspecifiedDisallowed)
                        },
                    }
                }
            },
            None => if unspecified_allowed {
                None
            } else {
                Some(DisallowReason::UnspecifiedDisallowed)
            },
        }
    }
}

} // verus!
