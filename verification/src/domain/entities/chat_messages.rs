//! Messages of a mission's crew chat. Times are microseconds since the Unix epoch (UTC).
use vstd::prelude::*;

verus! {

/// A stored chat message.
pub struct MissionChatMessageEntity {
    pub id: i32,
    pub mission_id: i32,
    pub brawler_id: i32,
    pub content: String,
    pub created_at: i64,
    pub image_url: Option<String>,
}

/// A chat message about to be stored.
pub struct AddMissionChatMessageEntity {
    pub mission_id: i32,
    pub brawler_id: i32,
    pub content: String,
    pub image_url: Option<String>,
}

/// A chat message together with its author's name and avatar.
pub struct MissionChatMessageModel {
    pub id: i32,
    pub mission_id: i32,
    pub brawler_id: i32,
    pub brawler_name: String,
    pub brawler_avatar: Option<String>,
    pub content: String,
    pub created_at: i64,
    pub image_url: Option<String>,
}

} // verus!
