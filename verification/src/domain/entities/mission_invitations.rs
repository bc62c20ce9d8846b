//! Invitations of a brawler into a mission. `status` is "pending", "accepted" or "rejected".
use vstd::prelude::*;

verus! {

/// A stored invitation.
pub struct MissionInvitationEntity {
    pub id: i32,
    pub mission_id: i32,
    pub inviter_id: i32,
    pub invitee_id: i32,
    pub status: String,
    /// When the invitation was made, as the stored timestamp's text.
    pub created_at: String,
}

/// An invitation about to be stored.
pub struct AddMissionInvitationEntity {
    pub mission_id: i32,
    pub inviter_id: i32,
    pub invitee_id: i32,
    pub status: String,
}

} // verus!
