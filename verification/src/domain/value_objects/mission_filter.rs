//! The criteria by which missions are listed.
use vstd::prelude::*;

verus! {

/// Criteria for listing missions; `None` leaves a criterion out.
pub struct MissionFilter {
    pub name: Option<String>,
    pub code: Option<String>,
    pub status: Option<String>,
    pub chief_id: Option<i32>,
    pub exclude_chief_id: Option<i32>,
    pub member_id: Option<i32>,
    pub exclude_member_id: Option<i32>,
}

} // verus!
