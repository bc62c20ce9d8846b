//! Where mission invitations are stored.
use vstd::prelude::*;
use crate::domain::effects::{Effect, EffectLog};
use crate::domain::entities::mission_invitations::{AddMissionInvitationEntity, MissionInvitationEntity};
use super::repository_error::RepositoryError;

verus! {

/// Storage of mission invitations.
pub trait MissionInvitationRepository {
    /// Whether `r` is an outcome that `invite` may give for these arguments.
    spec fn invite_outcome(&self, entity: AddMissionInvitationEntity, r: Result<i32, RepositoryError>) -> bool;

    /// Stores an invitation and gives its id.
    fn invite(&self, entity: AddMissionInvitationEntity, log: &mut EffectLog) -> (r: Result<i32, RepositoryError>)
        ensures
            self.invite_outcome(entity, r),
            final(log)@ == old(log)@.push(Effect::InvitationSent(entity)),
    ;

    /// Whether `r` is an outcome that `accept` may give for these arguments.
    spec fn accept_outcome(&self, invitation_id: i32, r: Result<(), RepositoryError>) -> bool;

    fn accept(&self, invitation_id: i32, log: &mut EffectLog) -> (r: Result<(), RepositoryError>)
        ensures
            self.accept_outcome(invitation_id, r),
            final(log)@ == old(log)@.push(Effect::InvitationAccepted(invitation_id)),
    ;

    /// Whether `r` is an outcome that `reject` may give for these arguments.
    spec fn reject_outcome(&self, invitation_id: i32, r: Result<(), RepositoryError>) -> bool;

    fn reject(&self, invitation_id: i32, log: &mut EffectLog) -> (r: Result<(), RepositoryError>)
        ensures
            self.reject_outcome(invitation_id, r),
            final(log)@ == old(log)@.push(Effect::InvitationRejected(invitation_id)),
    ;

    /// Whether `r` is an outcome that `get_received_invitations` may give for these arguments.
    spec fn get_received_invitations_outcome(&self, user_id: i32, r: Result<Vec<MissionInvitationEntity>, RepositoryError>) -> bool;

    /// The pending invitations addressed to `user_id`.
    fn get_received_invitations(&self, user_id: i32) -> (r: Result<Vec<MissionInvitationEntity>, RepositoryError>)
        ensures
            self.get_received_invitations_outcome(user_id, r),
    ;

    /// Whether `r` is an outcome that `get_mission_invitations` may give for these arguments.
    spec fn get_mission_invitations_outcome(&self, mission_id: i32, r: Result<Vec<MissionInvitationEntity>, RepositoryError>) -> bool;

    /// All invitations into the mission.
    fn get_mission_invitations(&self, mission_id: i32) -> (r: Result<Vec<MissionInvitationEntity>, RepositoryError>)
        ensures
            self.get_mission_invitations_outcome(mission_id, r),
    ;

    /// Whether `r` is an outcome that `get_by_id` may give for these arguments.
    spec fn get_by_id_outcome(&self, invitation_id: i32, r: Result<MissionInvitationEntity, RepositoryError>) -> bool;

    /// The invitation with id `invitation_id`; an error when there is none.
    fn get_by_id(&self, invitation_id: i32) -> (r: Result<MissionInvitationEntity, RepositoryError>)
        ensures
            self.get_by_id_outcome(invitation_id, r),
    ;

    /// Whether `r` is an outcome that `delete_existing` may give for these arguments.
    spec fn delete_existing_outcome(&self, mission_id: i32, invitee_id: i32, r: Result<(), RepositoryError>) -> bool;

    /// Deletes any invitation of `invitee_id` into the mission.
    fn delete_existing(&self, mission_id: i32, invitee_id: i32, log: &mut EffectLog) -> (r: Result<(), RepositoryError>)
        ensures
            self.delete_existing_outcome(mission_id, invitee_id, r),
            final(log)@ == old(log)@.push((Effect::InvitationsDeleted { mission_id, invitee_id })),
    ;
}

} // verus!
