//! Ratings that crew members give a mission.
use vstd::prelude::*;

verus! {

/// A stored rating.
pub struct MissionRatingEntity {
    pub id: i32,
    pub mission_id: i32,
    pub brawler_id: i32,
    pub rating: i32,
    pub comment: Option<String>,
    pub created_at: i64,
}

/// A rating about to be stored.
pub struct AddMissionRatingEntity {
    pub mission_id: i32,
    pub brawler_id: i32,
    pub rating: i32,
    pub comment: Option<String>,
}

/// A rating together with its author's name and avatar.
pub struct MissionRatingModel {
    pub id: i32,
    pub mission_id: i32,
    pub brawler_id: i32,
    pub brawler_name: String,
    pub brawler_avatar: Option<String>,
    pub rating: i32,
    pub comment: Option<String>,
    pub created_at: i64,
}

} // verus!
