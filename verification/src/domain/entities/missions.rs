//! Missions and crew memberships as the repositories store them.
use vstd::prelude::*;

verus! {

/// A stored mission. `status` is the text of a `MissionStatuses` value.
pub struct MissionEntity {
    pub id: i32,
    pub name: String,
    pub description: Option<String>,
    pub status: String,
    pub chief_id: i32,
    pub image_url: Option<String>,
    pub code: String,
    pub created_at: i64,
    pub updated_at: i64,
}

/// A mission about to be stored.
pub struct AddMissionEntity {
    pub name: String,
    pub description: Option<String>,
    pub status: String,
    pub chief_id: i32,
    pub image_url: Option<String>,
    pub code: String,
    pub max_participants: i32,
}

/// The changes to a mission that its chief asks for; `None` leaves a field as it is.
pub struct EditMissionEntity {
    pub name: Option<String>,
    pub description: Option<String>,
    pub chief_id: i32,
    pub max_participants: Option<i32>,
}

/// The membership of a brawler in a mission's crew.
pub struct CrewMemberShips {
    pub mission_id: i32,
    pub brawler_id: i32,
}

} // verus!
