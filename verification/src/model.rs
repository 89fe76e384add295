//! Plain-value models of the chat-platform data that resolution reads:
//! users, guild members, response payloads and sanction kinds. Identifiers
//! are carried in their compact integer wire form (`u64`).

use vstd::prelude::*;

verus! {

/// A platform user, identified by its integer id.
#[derive(Debug, PartialEq, Eq)]
pub struct User {
    /// Unique identifier of the user.
    pub id: u64,
    /// Display name of the user.
    pub name: String,
}

impl Clone for User {
    fn clone(&self) -> (r: Self)
        ensures
            r == *self,
    {
        User { id: self.id, name: self.name.clone() }
    }
}

/// A guild member as delivered on a guild-originated event. The embedded
/// user is optional on the wire; resolution requires it to be present.
#[derive(Debug, PartialEq, Eq)]
pub struct Member {
    /// The user this membership belongs to, when the platform attached it.
    pub user: Option<User>,
    /// The member's nickname in the guild, if any.
    pub nick: Option<String>,
}

impl Clone for Member {
    fn clone(&self) -> (r: Self)
        ensures
            r == *self,
    {
        Member {
            user: match &self.user {
                Some(u) => Some(u.clone()),
                None => None,
            },
            nick: match &self.nick {
                Some(n) => Some(n.clone()),
                None => None,
            },
        }
    }
}

/// The response payload a deferred "post in chat" action will send.
#[derive(Debug, PartialEq, Eq)]
pub struct ResponseData {
    /// Message content of the response, if any.
    pub content: Option<String>,
    /// Whether the response is visible only to the invoking user.
    pub ephemeral: bool,
}

impl Clone for ResponseData {
    fn clone(&self) -> (r: Self)
        ensures
            r == *self,
    {
        ResponseData {
            content: match &self.content {
                Some(c) => Some(c.clone()),
                None => None,
            },
            ephemeral: self.ephemeral,
        }
    }
}

/// Kind of a moderation log entry a pending sanction will produce.
#[derive(Debug, Clone, Copy, PartialEq, Eq)]
pub enum ModlogType {
    Ban,
    Kick,
    Mute,
    Warn,
}

} // verus!
