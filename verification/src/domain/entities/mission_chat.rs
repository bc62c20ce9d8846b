//! Messages of the mission chat that is open to the crew and the chief.
//! Times are microseconds since the Unix epoch (UTC).
use vstd::prelude::*;

verus! {

/// A stored mission chat message.
pub struct MissionChatMessageEntity {
    pub id: i32,
    pub mission_id: i32,
    pub brawler_id: i32,
    pub content: String,
    pub created_at: i64,
    pub image_url: Option<String>,
}

/// A mission chat message about to be stored.
pub struct NewMissionChatMessageEntity {
    pub mission_id: i32,
    pub brawler_id: i32,
    pub content: String,
    pub created_at: i64,
    pub image_url: Option<String>,
}

/// A mission chat message together with its author's display name.
pub struct MissionChatMessageWithBrawler {
    pub id: i32,
    pub mission_id: i32,
    pub brawler_id: i32,
    pub brawler_name: String,
    pub content: String,
    pub created_at: i64,
    pub image_url: Option<String>,
}

} // verus!
