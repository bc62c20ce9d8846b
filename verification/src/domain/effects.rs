//! The record of what the use cases change: every write to the storage and
//! every event announced to connected brawlers, in the order they are made.
use vstd::prelude::*;
use crate::domain::entities::brawlers::NewBrawlerEntity;
use crate::domain::entities::chat_messages::AddMissionChatMessageEntity;
use crate::domain::entities::friendships::AddFriendshipEntity;
use crate::domain::entities::mission_chat::NewMissionChatMessageEntity;
use crate::domain::entities::mission_invitations::AddMissionInvitationEntity;
use crate::domain::entities::missions::{AddMissionEntity, CrewMemberShips, EditMissionEntity};
use crate::domain::entities::ratings::AddMissionRatingEntity;
use crate::domain::value_objects::realtime::RealtimeEvent;
use crate::infrastructure::clock::{now_micros, now_secs};
use crate::infrastructure::realtime::SentEvent;

verus! {

/// One change: a storage write, with exactly the arguments it was asked
/// with, or an announced event.
pub enum Effect {
    Joined(CrewMemberShips),
    Left(CrewMemberShips),
    Registered(NewBrawlerEntity),
    AvatarUpdated { brawler_id: i32, avatar_url: String, avatar_public_id: String },
    CoverUpdated { brawler_id: i32, cover_url: String, cover_public_id: String },
    DisplayNameUpdated { brawler_id: i32, display_name: String },
    BioUpdated { brawler_id: i32, bio: String },
    ChatMessageAdded(AddMissionChatMessageEntity),
    MissionChatMessageSaved(NewMissionChatMessageEntity),
    FriendshipAdded(AddFriendshipEntity),
    FriendshipAccepted { user_id: i32, friend_id: i32 },
    FriendshipRejected { user_id: i32, friend_id: i32 },
    FriendshipRemoved { user_id1: i32, user_id2: i32 },
    InvitationSent(AddMissionInvitationEntity),
    InvitationAccepted(i32),
    InvitationRejected(i32),
    InvitationsDeleted { mission_id: i32, invitee_id: i32 },
    MissionAdded(AddMissionEntity),
    MissionEdited { mission_id: i32, entity: EditMissionEntity },
    MissionRemoved { mission_id: i32, chief_id: i32 },
    MissionStarted { mission_id: i32, chief_id: i32 },
    MissionCompleted { mission_id: i32, chief_id: i32 },
    MissionFailed { mission_id: i32, chief_id: i32 },
    RatingAdded(AddMissionRatingEntity),
    Announced(RealtimeEvent),
    /// The clock was read and gave this time, in microseconds since the
    /// Unix epoch (UTC).
    ClockRead(i64),
    /// The clock was read and gave this time, in whole seconds since the
    /// Unix epoch (UTC).
    ClockReadSeconds(i64),
}

/// The changes made so far, oldest first, with the clock readings they
/// were stamped with. Each repository method that writes, the hub's
/// broadcast and `read_clock` take the log and append what they did; no
/// other code can add an entry or take one out.
pub struct EffectLog {
    effects: Ghost<Seq<Effect>>,
}

impl View for EffectLog {
    type V = Seq<Effect>;

    closed spec fn view(&self) -> Seq<Effect> {
        self.effects@
    }
}

impl EffectLog {
    /// A log with nothing in it.
    pub fn new() -> (r: Self)
        ensures
            r@ == Seq::<Effect>::empty(),
    {
        EffectLog { effects: Ghost(Seq::empty()) }
    }

    /// Appends `e`.
    fn push(&mut self, Ghost(e): Ghost<Effect>)
        ensures
            final(self)@ == old(self)@.push(e),
    {
        self.effects = Ghost(self.effects@.push(e));
    }

    /// Reads the clock (microseconds since the Unix epoch, UTC) and records
    /// the reading.
    pub(crate) fn read_clock(&mut self) -> (t: i64)
        ensures
            final(self)@ == old(self)@.push(Effect::ClockRead(t)),
    {
        let t = now_micros();
        self.push(Ghost(Effect::ClockRead(t)));
        t
    }

    /// Reads the clock (whole seconds since the Unix epoch, UTC) and records
    /// the reading.
    pub(crate) fn read_clock_seconds(&mut self) -> (t: i64)
        ensures
            final(self)@ == old(self)@.push(Effect::ClockReadSeconds(t)),
            -10_000_000_000_000 <= t <= 10_000_000_000_000,
    {
        let t = now_secs();
        self.push(Ghost(Effect::ClockReadSeconds(t)));
        t
    }

    /// Records the event that the hub sent.
    pub(crate) fn record_sent(&mut self, sent: SentEvent)
        ensures
            final(self)@ == old(self)@.push(Effect::Announced(sent.event())),
    {
        self.push(Ghost(Effect::Announced(sent.event())));
    }
}

} // verus!
