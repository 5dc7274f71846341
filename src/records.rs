//! Rows of the bot's tables.
use vstd::prelude::*;

verus! {

/// A membership record of the monitored group chat.
#[derive(Clone, Copy, Debug)]
pub struct KnownUser {
    /// Identity of the chat user.
    pub id: i64,
    /// When the user joined, in seconds since the Unix epoch.
    pub joined_on: i64,
    /// When the user left, if they did.
    pub removed_on: Option<i64>,
    /// Whether the user may legitimately occupy several floors.
    pub is_landlord: bool,
}

/// A self-reported location post of the public chat.
#[derive(Clone, Debug)]
pub struct ComingoutPost {
    /// Author of the post.
    pub user_id: i64,
    /// Identifier of the post in the public chat; larger is more recent.
    pub msg_id: i64,
    pub building_num: i64,
    pub floor_num: i64,
    pub msg_text: String,
    /// Set when a later post supersedes this one.
    pub deprecated: bool,
    /// Chat of the bot's forwarded copy of the post, once it is known.
    pub forwarded_chat_id: Option<i64>,
    /// Message of the bot's forwarded copy of the post, once it is known.
    pub forwarded_msg_id: Option<i64>,
}

/// A (building, floor) pair that a user has claimed.
#[derive(Clone, Copy, Debug, PartialEq, Eq, Structural)]
pub struct Place {
    pub building: i64,
    pub floor: i64,
}

/// A forwardable copy of a neighbour's location post.
#[derive(Clone, Copy, Debug, PartialEq, Eq, Structural)]
pub struct NeighborMessage {
    /// Author of the post.
    pub user_id: i64,
    /// Floor that the post claims.
    pub floor: i64,
    /// Chat holding the forwarded copy.
    pub chat_id: i64,
    /// Message id of the forwarded copy.
    pub msg_id: i64,
}

} // verus!
