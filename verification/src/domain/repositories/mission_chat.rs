//! Where mission chat messages are stored.
use vstd::prelude::*;
use crate::domain::effects::{Effect, EffectLog};
use crate::domain::entities::mission_chat::{MissionChatMessageWithBrawler, NewMissionChatMessageEntity};
use super::repository_error::RepositoryError;

verus! {

/// Storage of mission chat messages.
pub trait MissionChatRepository {
    /// Whether `r` is an outcome that `save_message` may give for these arguments.
    spec fn save_message_outcome(&self, message: NewMissionChatMessageEntity, r: Result<i32, RepositoryError>) -> bool;

    /// Stores a message and gives its id.
    fn save_message(&self, message: NewMissionChatMessageEntity, log: &mut EffectLog) -> (r: Result<i32, RepositoryError>)
        ensures
            self.save_message_outcome(message, r),
            final(log)@ == old(log)@.push(Effect::MissionChatMessageSaved(message)),
    ;

    /// Whether `r` is an outcome that `get_messages_by_mission` may give for these arguments.
    spec fn get_messages_by_mission_outcome(&self, mission_id: i32, r: Result<Vec<MissionChatMessageWithBrawler>, RepositoryError>) -> bool;

    /// The messages of a mission, oldest first, with their authors' names.
    fn get_messages_by_mission(&self, mission_id: i32) -> (r: Result<Vec<MissionChatMessageWithBrawler>, RepositoryError>)
        ensures
            self.get_messages_by_mission_outcome(mission_id, r),
    ;
}

} // verus!
