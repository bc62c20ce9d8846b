//! Where crew chat messages are stored.
use vstd::prelude::*;
use crate::domain::effects::{Effect, EffectLog};
use crate::domain::entities::chat_messages::{AddMissionChatMessageEntity, MissionChatMessageModel};
use super::repository_error::RepositoryError;

verus! {

/// Storage of crew chat messages.
pub trait ChatRepository {
    /// Whether `r` is an outcome that `add` may give for these arguments.
    spec fn add_outcome(&self, add_chat_message_entity: AddMissionChatMessageEntity, r: Result<i32, RepositoryError>) -> bool;

    /// Stores a message and gives its id.
    fn add(&self, add_chat_message_entity: AddMissionChatMessageEntity, log: &mut EffectLog) -> (r: Result<i32, RepositoryError>)
        ensures
            self.add_outcome(add_chat_message_entity, r),
            final(log)@ == old(log)@.push(Effect::ChatMessageAdded(add_chat_message_entity)),
    ;

    /// Whether `r` is an outcome that `get_messages_by_mission_id` may give for these arguments.
    spec fn get_messages_by_mission_id_outcome(&self, mission_id: i32, r: Result<Vec<MissionChatMessageModel>, RepositoryError>) -> bool;

    /// The messages of a mission with their authors.
    fn get_messages_by_mission_id(&self, mission_id: i32) -> (r: Result<Vec<MissionChatMessageModel>, RepositoryError>)
        ensures
            self.get_messages_by_mission_id_outcome(mission_id, r),
    ;
}

} // verus!
