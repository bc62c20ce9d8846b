//! Events that the server pushes to connected brawlers.
use vstd::prelude::*;

verus! {

/// An event pushed to connected brawlers. Times are microseconds since the Unix epoch (UTC).
#[derive(Clone, Debug)]
pub enum RealtimeEvent {
    FriendRequest { from_id: i32, to_id: i32 },
    MissionInvitation { mission_id: i32, inviter_id: i32, invitee_id: i32 },
    FriendAccepted { from_id: i32, to_id: i32 },
    MissionInvitationAccepted { mission_id: i32, user_id: i32, inviter_id: i32 },
    MissionStatusChanged { mission_id: i32, status: String, brawler_id: i32 },
    MissionDeleted { mission_id: i32 },
    MissionCreated { mission_id: i32, chief_id: i32 },
    MissionUpdated { mission_id: i32, chief_id: i32 },
    MissionJoined { mission_id: i32, brawler_id: i32 },
    MissionLeft { mission_id: i32, brawler_id: i32 },
    MissionChatMessage {
        mission_id: i32,
        brawler_id: i32,
        brawler_name: String,
        content: String,
        created_at: i64,
    },
}

/// The one brawler a personal event is meant for; `None` for the events about
/// missions, which every connected brawler receives.
pub open spec fn addressee(e: RealtimeEvent) -> Option<i32> {
    match e {
        RealtimeEvent::FriendRequest { to_id, .. } => Some(to_id),
        RealtimeEvent::MissionInvitation { invitee_id, .. } => Some(invitee_id),
        RealtimeEvent::FriendAccepted { to_id, .. } => Some(to_id),
        RealtimeEvent::MissionInvitationAccepted { inviter_id, .. } => Some(inviter_id),
        _ => None,
    }
}

/// Whether the brawler `user_id` receives `e` on the event stream.
pub open spec fn relevant_to(e: RealtimeEvent, user_id: i32) -> bool {
    match addressee(e) {
        Some(id) => id == user_id,
        None => true,
    }
}

impl RealtimeEvent {
    /// Whether the brawler `user_id` receives this event on the event stream.
    pub fn is_relevant_to(&self, user_id: i32) -> (b: bool)
        ensures
            b == relevant_to(*self, user_id),
    {
        match self {
            RealtimeEvent::FriendRequest { to_id, .. } => *to_id == user_id,
            RealtimeEvent::MissionInvitation { invitee_id, .. } => *invitee_id == user_id,
            RealtimeEvent::FriendAccepted { to_id, .. } => *to_id == user_id,
            RealtimeEvent::MissionInvitationAccepted { inviter_id, .. } => *inviter_id == user_id,
            RealtimeEvent::MissionStatusChanged { .. } => true,
            RealtimeEvent::MissionDeleted { .. } => true,
            RealtimeEvent::MissionCreated { .. } => true,
            RealtimeEvent::MissionUpdated { .. } => true,
            RealtimeEvent::MissionJoined { .. } => true,
            RealtimeEvent::MissionLeft { .. } => true,
            RealtimeEvent::MissionChatMessage { .. } => true,
        }
    }
}

/// Only friend requests, mission invitations, accepted friend requests and
/// accepted invitations are personal, each reaching only the brawler it is
/// for (the one asked, invited, or whose request or invitation was
/// accepted); every other event, a mission's status change or chat message
/// among them, reaches every brawler, whoever they are.
pub proof fn lemma_who_receives_what(e: RealtimeEvent, user_id: i32)
    ensures
        e matches RealtimeEvent::FriendRequest { to_id, .. } ==> (relevant_to(e, user_id) <==> user_id
            == to_id),
        e matches RealtimeEvent::MissionInvitation { invitee_id, .. } ==> (relevant_to(e, user_id)
            <==> user_id == invitee_id),
        e matches RealtimeEvent::FriendAccepted { to_id, .. } ==> (relevant_to(e, user_id) <==> user_id
            == to_id),
        e matches RealtimeEvent::MissionInvitationAccepted { inviter_id, .. } ==> (relevant_to(
            e,
            user_id,
        ) <==> user_id == inviter_id),
        !(e is FriendRequest || e is MissionInvitation || e is FriendAccepted
            || e is MissionInvitationAccepted) ==> relevant_to(e, user_id),
{
}

/// A personal event reaches exactly its addressee; an event about a mission
/// reaches every brawler alike.
pub proof fn lemma_event_delivery(e: RealtimeEvent, u1: i32, u2: i32)
    ensures
        addressee(e) matches Some(a) ==> (relevant_to(e, u1) <==> u1 == a),
        addressee(e) is None ==> relevant_to(e, u1) && relevant_to(e, u2),
{
}

} // verus!
