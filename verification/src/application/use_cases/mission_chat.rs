//! The mission chat, open to the crew and the chief.
use std::sync::Arc;
use vstd::prelude::*;
use crate::domain::effects::{Effect, EffectLog};
use crate::domain::entities::mission_chat::{MissionChatMessageWithBrawler, NewMissionChatMessageEntity};
use crate::domain::entities::brawlers::BrawlerEntity;
use crate::domain::entities::missions::MissionEntity;
use crate::domain::repositories::brawlers::BrawlerRepository;
use crate::domain::repositories::crew_operation::CrewOperationRepository;
use crate::domain::repositories::mission_chat::MissionChatRepository;
use crate::domain::repositories::mission_viewing::MissionViewingRepository;
use crate::domain::repositories::repository_error::RepositoryError;
use crate::domain::value_objects::realtime::RealtimeEvent;
use crate::infrastructure::realtime::RealtimeHub;

verus! {

/// Why a mission chat request was refused.
pub enum MissionChatError {
    Repository(RepositoryError),
    /// Only the crew and the chief of the mission may use its chat.
    NotAMember,
}

/// The crew members and the chief of a mission use its chat.
pub open spec fn may_use_mission_chat(is_member: bool, chief_id: i32, brawler_id: i32) -> bool {
    is_member || chief_id == brawler_id
}

/// Whether `brawler_id` may use the chat of a mission led by `chief_id`,
/// being in its crew (`is_member`) or not.
pub fn check_mission_chat_access(is_member: bool, chief_id: i32, brawler_id: i32) -> (b: bool)
    ensures
        b == may_use_mission_chat(is_member, chief_id, brawler_id),
{
    is_member || chief_id == brawler_id
}

/// A storage outcome as the mission chat reports it: its value, or its
/// error as a repository error.
pub open spec fn lift_mission_chat<T>(o: Result<T, RepositoryError>) -> Result<T, MissionChatError> {
    match o {
        Ok(v) => Ok(v),
        Err(e) => Err(MissionChatError::Repository(e)),
    }
}

/// The use case for the mission chat.
pub struct MissionChatUseCase<T1, T2, T3, T4> where
    T1: MissionChatRepository + Send + Sync,
    T2: CrewOperationRepository + Send + Sync,
    T3: MissionViewingRepository + Send + Sync,
    T4: BrawlerRepository + Send + Sync,
 {
    mission_chat_repo: Arc<T1>,
    crew_repo: Arc<T2>,
    mission_view_repo: Arc<T3>,
    brawler_repo: Arc<T4>,
    realtime_hub: Arc<RealtimeHub>,
}

impl<T1, T2, T3, T4> MissionChatUseCase<T1, T2, T3, T4> where
    T1: MissionChatRepository + Send + Sync,
    T2: CrewOperationRepository + Send + Sync,
    T3: MissionViewingRepository + Send + Sync,
    T4: BrawlerRepository + Send + Sync,
 {
    pub fn new(
        mission_chat_repo: Arc<T1>,
        crew_repo: Arc<T2>,
        mission_view_repo: Arc<T3>,
        brawler_repo: Arc<T4>,
        realtime_hub: Arc<RealtimeHub>,
    ) -> (r: Self)
        ensures
            r.repositories() == (mission_chat_repo, crew_repo, mission_view_repo, brawler_repo),
            r.hub() == realtime_hub,
    {
        MissionChatUseCase { mission_chat_repo, crew_repo, mission_view_repo, brawler_repo, realtime_hub }
    }

    /// The repositories that the use case works on.
    pub closed spec fn repositories(&self) -> (Arc<T1>, Arc<T2>, Arc<T3>, Arc<T4>) {
        (self.mission_chat_repo, self.crew_repo, self.mission_view_repo, self.brawler_repo)
    }

    /// The hub through which new messages are announced.
    pub closed spec fn hub(&self) -> Arc<RealtimeHub> {
        self.realtime_hub
    }

    /// `r` is the access decision for `brawler_id` on the chat of
    /// `mission_id`, from what the storage gave: whether the brawler is in
    /// the crew, then the mission (for its chief); a read's error stops it.
    pub open spec fn access_decided(&self, mission_id: i32, brawler_id: i32, r: Result<(), MissionChatError>) -> bool {
        exists|mb: Result<bool, RepositoryError>|
            #[trigger] self.repositories().1.is_member_outcome(mission_id, brawler_id, mb) && match mb {
                Err(e) => r == Err::<(), MissionChatError>(MissionChatError::Repository(e)),
                Ok(is_member) => exists|mo: Result<MissionEntity, RepositoryError>|
                    #[trigger] self.repositories().2.get_one_outcome(mission_id, mo) && match mo {
                        Err(e) => r == Err::<(), MissionChatError>(MissionChatError::Repository(e)),
                        Ok(m) => if may_use_mission_chat(is_member, m.chief_id, brawler_id) {
                            r == Ok::<(), MissionChatError>(())
                        } else {
                            r == Err::<(), MissionChatError>(MissionChatError::NotAMember)
                        },
                    },
            }
    }

    /// Whether `brawler_id` may use the mission's chat; reads membership and the mission.
    fn authorize(&self, mission_id: i32, brawler_id: i32) -> (r: Result<(), MissionChatError>)
        ensures
            self.access_decided(mission_id, brawler_id, r),
    {
        let member = self.crew_repo.is_member(mission_id, brawler_id);
        let ghost mb = member;
        assert(self.repositories().1.is_member_outcome(mission_id, brawler_id, mb));
        let is_member = match member {
            Ok(b) => b,
            Err(e) => {
                let r: Result<(), MissionChatError> = Err(MissionChatError::Repository(e));
                assert(self.access_decided(mission_id, brawler_id, r));
                return r;
            },
        };
        let found = self.mission_view_repo.get_one(mission_id);
        let ghost mo = found;
        assert(self.repositories().2.get_one_outcome(mission_id, mo));
        let mission = match found {
            Ok(m) => m,
            Err(e) => {
                let r: Result<(), MissionChatError> = Err(MissionChatError::Repository(e));
                assert(self.access_decided(mission_id, brawler_id, r));
                return r;
            },
        };
        if !check_mission_chat_access(is_member, mission.chief_id, brawler_id) {
            let r: Result<(), MissionChatError> = Err(MissionChatError::NotAMember);
            assert(self.access_decided(mission_id, brawler_id, r));
            return r;
        }
        let r: Result<(), MissionChatError> = Ok(());
        assert(self.access_decided(mission_id, brawler_id, r));
        r
    }

    /// `r` follows the access decision `a`: its refusal, or else what `rest` says.
    pub open spec fn after_access<T>(a: Result<(), MissionChatError>, r: Result<T, MissionChatError>, rest: bool) -> bool {
        match a {
            Err(e) => r == Err::<T, MissionChatError>(e),
            Ok(()) => rest,
        }
    }

    /// The log went from `before` to `after` by reading the clock, saving
    /// `message` stamped with that reading and, when the save succeeded,
    /// announcing it, with the same time, under the author's name
    /// `author_name`.
    pub open spec fn message_recorded(
        before: Seq<Effect>,
        after: Seq<Effect>,
        message: NewMissionChatMessageEntity,
        author_name: String,
        saved: bool,
    ) -> bool {
        let read = before.push(Effect::ClockRead(message.created_at));
        if saved {
            after == read.push(Effect::MissionChatMessageSaved(message)).push(
                Effect::Announced(
                    RealtimeEvent::MissionChatMessage {
                        mission_id: message.mission_id,
                        brawler_id: message.brawler_id,
                        brawler_name: author_name,
                        content: message.content,
                        created_at: message.created_at,
                    },
                ),
            )
        } else {
            after == read.push(Effect::MissionChatMessageSaved(message))
        }
    }

    /// Stores the message of `brawler_id`, stamped with the current time,
    /// and tells the connected brawlers; gives the message's id. Access is
    /// decided first, then the author is read, then the message, without an
    /// image, is stored.
    /// What sending `content` as `brawler_id` in the chat of `mission_id`
    /// gives, with the log going from `before` to `after`: access is decided
    /// first (a refusal changes nothing); then the author is read (a failed
    /// read changes nothing); then the clock is read and the message, stamped
    /// with that reading and without an image, is saved; when the save
    /// succeeds it is announced (see `message_recorded`).
    pub open spec fn message_sent(
        &self,
        mission_id: i32,
        brawler_id: i32,
        content: String,
        before: Seq<Effect>,
        after: Seq<Effect>,
        r: Result<i32, MissionChatError>,
    ) -> bool {
        exists|a: Result<(), MissionChatError>|
            #[trigger] self.access_decided(mission_id, brawler_id, a) && (a is Err ==> after
                == before) && Self::after_access(
                a,
                r,
                exists|b: Result<BrawlerEntity, RepositoryError>|
                    #[trigger] self.repositories().3.find_by_id_outcome(brawler_id, b) && match b {
                        Err(e) => r == Err::<i32, MissionChatError>(MissionChatError::Repository(e))
                            && after == before,
                        Ok(author) => exists|t: i64, o: Result<i32, RepositoryError>|
                            #[trigger] self.repositories().0.save_message_outcome(
                                (NewMissionChatMessageEntity {
                                    mission_id,
                                    brawler_id,
                                    content,
                                    created_at: t,
                                    image_url: None,
                                }),
                                o,
                            ) && r == lift_mission_chat(o) && Self::message_recorded(
                                before,
                                after,
                                (NewMissionChatMessageEntity {
                                    mission_id,
                                    brawler_id,
                                    content,
                                    created_at: t,
                                    image_url: None,
                                }),
                                author.display_name,
                                o is Ok,
                            ),
                    },
            )
    }

    /// Every message that a send stores is stamped with the clock reading
    /// taken during that send, just before the store, and is the author's
    /// text in that mission; its announcement carries the same mission,
    /// author, text and time. A send that stores nothing announces nothing.
    pub proof fn lemma_message_carries_send_time(
        &self,
        mission_id: i32,
        brawler_id: i32,
        content: String,
        before: Seq<Effect>,
        after: Seq<Effect>,
        r: Result<i32, MissionChatError>,
    )
        requires
            self.message_sent(mission_id, brawler_id, content, before, after, r),
        ensures
            forall|k: int|
                before.len() <= k < after.len() && #[trigger] after[k] is MissionChatMessageSaved ==> {
                    let m = after[k]->MissionChatMessageSaved_0;
                    &&& k == before.len() + 1
                    &&& after[before.len() as int] == Effect::ClockRead(m.created_at)
                    &&& m.mission_id == mission_id && m.brawler_id == brawler_id && m.content == content
                },
            forall|k: int|
                before.len() <= k < after.len() && #[trigger] after[k] is Announced ==> {
                    &&& after[k]->Announced_0 matches RealtimeEvent::MissionChatMessage {
                        mission_id: m,
                        brawler_id: b,
                        content: c,
                        created_at: t,
                        ..
                    }
                    &&& m == mission_id && b == brawler_id && c == content
                    &&& after[before.len() as int] == Effect::ClockRead(t)
                    &&& after[before.len() + 1int] is MissionChatMessageSaved
                },
            r is Ok ==> after.len() == before.len() + 3,
    {
    }

    pub fn send_message(&self, mission_id: i32, brawler_id: i32, content: String, log: &mut EffectLog) -> (r:
        Result<i32, MissionChatError>)
        ensures
            self.message_sent(mission_id, brawler_id, content, old(log)@, final(log)@, r),
    {
        let ghost before = log@;
        let access = self.authorize(mission_id, brawler_id);
        let ghost a = access;
        match access {
            Ok(()) => {},
            Err(e) => {
                let r: Result<i32, MissionChatError> = Err(e);
                assert(self.access_decided(mission_id, brawler_id, a));
                return r;
            },
        }
        assert(a == Ok::<(), MissionChatError>(()));
        let found = self.brawler_repo.find_by_id(brawler_id);
        let ghost b = found;
        assert(self.repositories().3.find_by_id_outcome(brawler_id, b));
        let brawler = match found {
            Ok(b) => b,
            Err(e) => {
                let r: Result<i32, MissionChatError> = Err(MissionChatError::Repository(e));
                assert(self.access_decided(mission_id, brawler_id, a));
                return r;
            },
        };
        let now = log.read_clock();
        let new_message = NewMissionChatMessageEntity {
            mission_id,
            brawler_id,
            content: content.clone(),
            created_at: now,
            image_url: None,
        };
        let ghost message = new_message;
        let saved = self.mission_chat_repo.save_message(new_message, log);
        let ghost o = saved;
        let message_id = match saved {
            Ok(id) => id,
            Err(e) => {
                let r: Result<i32, MissionChatError> = Err(MissionChatError::Repository(e));
                assert(Self::message_recorded(before, log@, message, brawler.display_name, false));
                assert(self.repositories().0.save_message_outcome(message, o) && r == lift_mission_chat(o));
                assert(self.access_decided(mission_id, brawler_id, a));
                return r;
            },
        };
        let ghost author = brawler;
        self.realtime_hub.broadcast(
            RealtimeEvent::MissionChatMessage {
                mission_id,
                brawler_id,
                brawler_name: brawler.display_name,
                content,
                created_at: now,
            },
            log,
        );
        assert(Self::message_recorded(before, log@, message, author.display_name, true));
        let r: Result<i32, MissionChatError> = Ok(message_id);
        assert(self.repositories().0.save_message_outcome(message, o) && r == lift_mission_chat(o));
        assert(self.access_decided(mission_id, brawler_id, a));
        r
    }

    /// The messages of the mission, for its crew and chief: access is decided
    /// first, then what the storage gives for the mission.
    pub fn get_messages(&self, mission_id: i32, brawler_id: i32) -> (r: Result<
        Vec<MissionChatMessageWithBrawler>,
        MissionChatError,
    >)
        ensures
            exists|a: Result<(), MissionChatError>|
                #[trigger] self.access_decided(mission_id, brawler_id, a) && Self::after_access(
                    a,
                    r,
                    exists|o: Result<Vec<MissionChatMessageWithBrawler>, RepositoryError>|
                        #[trigger] self.repositories().0.get_messages_by_mission_outcome(mission_id, o)
                            && r == lift_mission_chat(o),
                ),
    {
        let access = self.authorize(mission_id, brawler_id);
        let ghost a = access;
        match access {
            Ok(()) => {},
            Err(e) => {
                let r: Result<Vec<MissionChatMessageWithBrawler>, MissionChatError> = Err(e);
                assert(self.access_decided(mission_id, brawler_id, a));
                return r;
            },
        }
        assert(a == Ok::<(), MissionChatError>(()));
        let read = self.mission_chat_repo.get_messages_by_mission(mission_id);
        let ghost o = read;
        let r = match read {
            Ok(v) => Ok(v),
            Err(e) => Err(MissionChatError::Repository(e)),
        };
        assert(self.repositories().0.get_messages_by_mission_outcome(mission_id, o) && r
            == lift_mission_chat(o));
        assert(self.access_decided(mission_id, brawler_id, a));
        r
    }
}

} // verus!
