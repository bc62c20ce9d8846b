//! The chat of a mission's crew.
use std::sync::Arc;
use vstd::prelude::*;
use crate::domain::effects::{Effect, EffectLog};
use crate::domain::entities::chat_messages::{AddMissionChatMessageEntity, MissionChatMessageModel};
use crate::domain::repositories::chat::ChatRepository;
use crate::domain::repositories::crew_operation::CrewOperationRepository;
use crate::domain::repositories::repository_error::RepositoryError;

verus! {

/// Why a chat request was refused.
pub enum ChatError {
    Repository(RepositoryError),
    /// Only members of the mission may send messages.
    NotMemberToSend,
    /// Only members of the mission may read messages.
    NotMemberToView,
}

/// A brawler takes part in a mission's crew chat while that mission is their
/// current active mission.
pub open spec fn in_crew_chat(current_mission: Option<i32>, mission_id: i32) -> bool {
    current_mission == Some(mission_id)
}

/// Whether a brawler whose current mission is `current_mission` takes part in
/// the chat of `mission_id`.
pub fn check_crew_chat_access(current_mission: Option<i32>, mission_id: i32) -> (b: bool)
    ensures
        b == in_crew_chat(current_mission, mission_id),
{
    match current_mission {
        Some(id) => id == mission_id,
        None => false,
    }
}

/// A storage outcome as the chat reports it: its value, or its error as a
/// repository error.
pub open spec fn lift_chat<T>(o: Result<T, RepositoryError>) -> Result<T, ChatError> {
    match o {
        Ok(v) => Ok(v),
        Err(e) => Err(ChatError::Repository(e)),
    }
}

/// The use case for the crew chat.
pub struct ChatUseCase<T1, T2> where
    T1: ChatRepository + Send + Sync,
    T2: CrewOperationRepository + Send + Sync,
 {
    chat_repository: Arc<T1>,
    crew_operation_repository: Arc<T2>,
}

impl<T1, T2> ChatUseCase<T1, T2> where
    T1: ChatRepository + Send + Sync,
    T2: CrewOperationRepository + Send + Sync,
 {
    /// The repositories that the use case works on.
    pub closed spec fn repositories(&self) -> (Arc<T1>, Arc<T2>) {
        (self.chat_repository, self.crew_operation_repository)
    }

    pub fn new(chat_repository: Arc<T1>, crew_operation_repository: Arc<T2>) -> (r: Self)
        ensures
            r.repositories() == (chat_repository, crew_operation_repository),
    {
        ChatUseCase { chat_repository, crew_operation_repository }
    }

    /// The outcome `o` of the storage for `brawler_id`'s current mission
    /// leads to `r`, the outcome of a chat request about `mission_id`: its
    /// error, or `refusal` when that mission is not the current one, or else
    /// whatever `rest` says of `r`.
    pub open spec fn crew_checked<T>(
        o: Result<Option<i32>, RepositoryError>,
        mission_id: i32,
        r: Result<T, ChatError>,
        refusal: ChatError,
        rest: bool,
    ) -> bool {
        match o {
            Err(e) => r == Err::<T, ChatError>(ChatError::Repository(e)),
            Ok(c) => if in_crew_chat(c, mission_id) {
                rest
            } else {
                r == Err::<T, ChatError>(refusal)
            },
        }
    }

    /// Stores a message of `brawler_id` in the chat of the mission, if it is
    /// the brawler's current mission (the storage is asked first); gives the
    /// message's id, or the storage's error.
    pub fn send_message(
        &self,
        mission_id: i32,
        brawler_id: i32,
        content: String,
        image_url: Option<String>,
        log: &mut EffectLog,
    ) -> (r: Result<i32, ChatError>)
        ensures
            r is Err ==> (r matches Err(ChatError::NotMemberToSend) || r matches Err(
                ChatError::Repository(_),
            )),
            exists|c: Result<Option<i32>, RepositoryError>|
                #[trigger] self.repositories().1.get_current_mission_outcome(brawler_id, c)
                    && Self::crew_checked(
                    c,
                    mission_id,
                    r,
                    ChatError::NotMemberToSend,
                    exists|o: Result<i32, RepositoryError>|
                        #[trigger] self.repositories().0.add_outcome(
                            (AddMissionChatMessageEntity { mission_id, brawler_id, content, image_url }),
                            o,
                        ) && r == lift_chat(o),
                ) && final(log)@ == if c matches Ok(current) && in_crew_chat(current, mission_id) {
                    old(log)@.push(
                        Effect::ChatMessageAdded(
                            AddMissionChatMessageEntity { mission_id, brawler_id, content, image_url },
                        ),
                    )
                } else {
                    old(log)@
                },
    {
        let current = self.crew_operation_repository.get_current_mission(brawler_id);
        let ghost cg = current;
        assert(self.repositories().1.get_current_mission_outcome(brawler_id, cg));
        let current_mission = match current {
            Ok(c) => c,
            Err(e) => {
                let r: Result<i32, ChatError> = Err(ChatError::Repository(e));
                assert(r == Err::<i32, ChatError>(ChatError::Repository(e)));
                return r;
            },
        };
        if !check_crew_chat_access(current_mission, mission_id) {
            let r: Result<i32, ChatError> = Err(ChatError::NotMemberToSend);
            assert(cg == Ok::<Option<i32>, RepositoryError>(current_mission));
            return r;
        }
        let ghost entity = AddMissionChatMessageEntity { mission_id, brawler_id, content, image_url };
        let o = self.chat_repository.add(
            AddMissionChatMessageEntity { mission_id, brawler_id, content, image_url },
            log,
        );
        let ghost outcome = o;
        let r = match o {
            Ok(id) => Ok(id),
            Err(e) => Err(ChatError::Repository(e)),
        };
        assert(self.repositories().0.add_outcome(entity, outcome) && r == lift_chat(outcome));
        r
    }

    /// The messages of the mission, if it is the brawler's current mission
    /// (the storage is asked first): what the storage gives for the mission.
    pub fn get_messages(&self, mission_id: i32, brawler_id: i32) -> (r: Result<
        Vec<MissionChatMessageModel>,
        ChatError,
    >)
        ensures
            r is Err ==> (r matches Err(ChatError::NotMemberToView) || r matches Err(
                ChatError::Repository(_),
            )),
            exists|c: Result<Option<i32>, RepositoryError>|
                #[trigger] self.repositories().1.get_current_mission_outcome(brawler_id, c)
                    && Self::crew_checked(
                    c,
                    mission_id,
                    r,
                    ChatError::NotMemberToView,
                    exists|o: Result<Vec<MissionChatMessageModel>, RepositoryError>|
                        #[trigger] self.repositories().0.get_messages_by_mission_id_outcome(
                            mission_id,
                            o,
                        ) && r == lift_chat(o),
                ),
    {
        let current = self.crew_operation_repository.get_current_mission(brawler_id);
        let ghost cg = current;
        assert(self.repositories().1.get_current_mission_outcome(brawler_id, cg));
        let current_mission = match current {
            Ok(c) => c,
            Err(e) => {
                let r: Result<Vec<MissionChatMessageModel>, ChatError> = Err(ChatError::Repository(e));
                assert(r == Err::<Vec<MissionChatMessageModel>, ChatError>(ChatError::Repository(e)));
                return r;
            },
        };
        if !check_crew_chat_access(current_mission, mission_id) {
            let r: Result<Vec<MissionChatMessageModel>, ChatError> = Err(ChatError::NotMemberToView);
            assert(cg == Ok::<Option<i32>, RepositoryError>(current_mission));
            return r;
        }
        let o = self.chat_repository.get_messages_by_mission_id(mission_id);
        let ghost outcome = o;
        let r = match o {
            Ok(v) => Ok(v),
            Err(e) => Err(ChatError::Repository(e)),
        };
        assert(self.repositories().0.get_messages_by_mission_id_outcome(mission_id, outcome) && r
            == lift_chat(outcome));
        r
    }
}

} // verus!
