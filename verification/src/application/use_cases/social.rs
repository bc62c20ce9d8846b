//! Friendships between brawlers and invitations into missions.
use std::sync::Arc;
use vstd::prelude::*;
use crate::decimal::{parse_i64, parsed_i64};
use crate::domain::entities::brawlers::BrawlerEntity;
use crate::domain::entities::friendships::{AddFriendshipEntity, FriendshipEntity};
use crate::domain::entities::mission_invitations::{AddMissionInvitationEntity, MissionInvitationEntity};
use crate::domain::entities::missions::{CrewMemberShips, MissionEntity};
use crate::domain::repositories::brawlers::BrawlerRepository;
use crate::domain::repositories::crew_operation::CrewOperationRepository;
use crate::domain::repositories::friendships::FriendshipRepository;
use crate::domain::repositories::mission_invitations::MissionInvitationRepository;
use crate::domain::repositories::mission_viewing::MissionViewingRepository;
use crate::domain::repositories::repository_error::RepositoryError;
use crate::domain::value_objects::mission_statuses::{MissionStatuses, has_status, str_equal};
use crate::domain::value_objects::realtime::RealtimeEvent;
use crate::domain::effects::{Effect, EffectLog};
use crate::domain::value_objects::social_model::{
    FriendModel, FriendshipStatusModel, MissionInvitationModel,
};
use crate::infrastructure::realtime::SharedRealtimeHub;
use crate::text::copy_optional;

verus! {

/// Why a friendship or invitation request was refused.
pub enum SocialError {
    Repository(RepositoryError),
    /// A brawler cannot befriend themself.
    CannotAddSelf,
    /// The two brawlers already have a friendship or a pending request.
    FriendshipAlreadyExists,
    /// Only accepted friends can be invited.
    NotFriends,
    /// The invitation is addressed to someone else.
    NotForYou,
    /// The crew limit setting is not a decimal `i64`.
    InvalidCrewLimit,
    /// The chief of a mission is always in its squad.
    ChiefAlreadyInSquad,
    /// The brawler is in another active mission, `name` (#`code`).
    AlreadyInAnotherMission { name: String, code: String },
    /// The mission, in status `status`, takes no new crew.
    NotJoinable { status: String },
    /// The mission's crew of `crew_count` has reached the limit `max_crew_per_mission`.
    MissionFull { crew_count: i64, max_crew_per_mission: i64 },
}

// ---------------------------------------------------------------- friendships

/// A repository's outcome as the use case reports it: its value, or its
/// error as a repository error.
pub open spec fn lift_repository<T>(o: Result<T, RepositoryError>) -> Result<T, SocialError> {
    match o {
        Ok(v) => Ok(v),
        Err(e) => Err(SocialError::Repository(e)),
    }
}

/// The friendship's text for an accepted request.
pub open spec fn is_accepted(status: Seq<char>) -> bool {
    status == "accepted"@
}

/// A friend request from `user_id` to `friend_id` may be made when the two
/// differ and no friendship or request between them exists yet.
pub open spec fn friend_request_refusal(
    user_id: i32,
    friend_id: i32,
    existing: Option<FriendshipEntity>,
) -> Option<SocialError> {
    if user_id == friend_id {
        Some(SocialError::CannotAddSelf)
    } else if existing is Some {
        Some(SocialError::FriendshipAlreadyExists)
    } else {
        None
    }
}

/// Decides a friend request, given the friendship that exists between the two, if any.
pub fn check_friend_request(user_id: i32, friend_id: i32, existing: &Option<FriendshipEntity>) -> (r:
    Result<(), SocialError>)
    ensures
        match friend_request_refusal(user_id, friend_id, *existing) {
            None => r is Ok,
            Some(SocialError::CannotAddSelf) => r matches Err(SocialError::CannotAddSelf),
            Some(_) => r matches Err(SocialError::FriendshipAlreadyExists),
        },
{
    if user_id == friend_id {
        return Err(SocialError::CannotAddSelf);
    }
    if existing.is_some() {
        return Err(SocialError::FriendshipAlreadyExists);
    }
    Ok(())
}

/// A brawler may invite another into a mission only when their friendship is accepted.
pub fn check_can_invite(friendship: &Option<FriendshipEntity>) -> (r: Result<(), SocialError>)
    ensures
        r is Ok <==> (friendship matches Some(f) && is_accepted(f.status@)),
        r is Err ==> r matches Err(SocialError::NotFriends),
{
    match friendship {
        Some(f) => {
            if str_equal(f.status.as_str(), "accepted") {
                Ok(())
            } else {
                Err(SocialError::NotFriends)
            }
        },
        None => Err(SocialError::NotFriends),
    }
}

/// `m` reports the friendship found between two brawlers: its id, the
/// brawler who asked, and its status; "none" when there is none.
pub open spec fn reports_friendship(m: FriendshipStatusModel, friendship: Option<FriendshipEntity>) -> bool {
    match friendship {
        Some(f) => m.friendship_id == Some(f.id) && m.initiator_id == Some(f.user_id) && m.status@
            == f.status@,
        None => m.friendship_id is None && m.initiator_id is None && m.status@ == "none"@,
    }
}

/// The friendship status to report for the friendship found between two brawlers.
pub fn friendship_status_of(friendship: &Option<FriendshipEntity>) -> (m: FriendshipStatusModel)
    ensures
        reports_friendship(m, *friendship),
{
    match friendship {
        Some(f) => FriendshipStatusModel {
            friendship_id: Some(f.id),
            initiator_id: Some(f.user_id),
            status: f.status.clone(),
        },
        None => FriendshipStatusModel {
            friendship_id: None,
            initiator_id: None,
            status: String::from_str("none"),
        },
    }
}

/// The other side of a friendship, seen from `user_id`.
pub open spec fn other_party(f: FriendshipEntity, user_id: i32) -> i32 {
    if f.user_id == user_id {
        f.friend_id
    } else {
        f.user_id
    }
}

/// The other side of the friendship `f`, seen from `user_id`.
pub fn friend_of(f: &FriendshipEntity, user_id: i32) -> (id: i32)
    ensures
        id == other_party(*f, user_id),
{
    if f.user_id == user_id {
        f.friend_id
    } else {
        f.user_id
    }
}

/// For a brawler on one side of a friendship, the friend is the brawler on
/// the other side.
pub proof fn lemma_other_party(f: FriendshipEntity, user_id: i32)
    requires
        f.user_id == user_id || f.friend_id == user_id,
    ensures
        f.user_id == user_id ==> other_party(f, user_id) == f.friend_id,
        f.friend_id == user_id && f.user_id != user_id ==> other_party(f, user_id) == f.user_id,
        other_party(f, user_id) == f.user_id || other_party(f, user_id) == f.friend_id,
{
}

/// The friend request of `user_id` to `friend_id`, as it is stored: pending.
pub open spec fn is_request_for(ent: AddFriendshipEntity, user_id: i32, friend_id: i32) -> bool {
    &&& ent.user_id == user_id
    &&& ent.friend_id == friend_id
    &&& ent.status@ == "pending"@
}

/// The invitation of `invitee_id` by `inviter_id` into `mission_id`, as it
/// is stored: pending.
pub open spec fn is_invitation_for(
    ent: AddMissionInvitationEntity,
    mission_id: i32,
    inviter_id: i32,
    invitee_id: i32,
) -> bool {
    &&& ent.mission_id == mission_id
    &&& ent.inviter_id == inviter_id
    &&& ent.invitee_id == invitee_id
    &&& ent.status@ == "pending"@
}

/// The friend as listed: the friendship's id and status, the friend's id and
/// the friend's name and avatar.
pub open spec fn is_friend_model(m: FriendModel, f: FriendshipEntity, friend_id: i32, b: BrawlerEntity) -> bool {
    &&& m.friendship_id == f.id
    &&& m.friend_id == friend_id
    &&& m.display_name@ == b.display_name@
    &&& m.username@ == b.username@
    &&& m.avatar_url == b.avatar_url
    &&& m.status@ == f.status@
}

/// Lists `friend_id` (found as `brawler`) as a friend through `f`.
pub fn friend_model(f: &FriendshipEntity, friend_id: i32, brawler: BrawlerEntity) -> (m: FriendModel)
    ensures
        is_friend_model(m, *f, friend_id, brawler),
{
    FriendModel {
        friendship_id: f.id,
        friend_id,
        display_name: brawler.display_name,
        username: brawler.username,
        avatar_url: brawler.avatar_url,
        status: f.status.clone(),
    }
}

// ----------------------------------------------------------------- invitations

/// The invitation as listed, with the names of its mission, inviter and invitee.
pub open spec fn is_invitation_model(
    m: MissionInvitationModel,
    i: MissionInvitationEntity,
    mission_name: Seq<char>,
    inviter_name: Seq<char>,
    invitee_name: Seq<char>,
) -> bool {
    &&& m.invitation_id == i.id
    &&& m.mission_id == i.mission_id
    &&& m.mission_name@ == mission_name
    &&& m.inviter_id == i.inviter_id
    &&& m.inviter_name@ == inviter_name
    &&& m.invitee_id == i.invitee_id
    &&& m.invitee_name@ == invitee_name
    &&& m.status@ == i.status@
    &&& m.created_at@ == i.created_at@
}

/// What the lookups for one invitation found: its mission's name and the
/// display names of its inviter and invitee, each `None` when not found.
pub struct InvitationLookup {
    pub mission_name: Option<String>,
    pub inviter_name: Option<String>,
    pub invitee_name: Option<String>,
}

/// Whether every lookup for an invitation found what it looked for.
pub open spec fn lookup_complete(l: InvitationLookup) -> bool {
    l.mission_name is Some && l.inviter_name is Some && l.invitee_name is Some
}

/// The invitations that can be listed: those whose lookups all succeeded, in
/// their order, each with the names that were found.
pub open spec fn listed_invitations(
    invitations: Seq<MissionInvitationEntity>,
    lookups: Seq<InvitationLookup>,
) -> Seq<int>
    decreases invitations.len(),
{
    if invitations.len() == 0 {
        Seq::empty()
    } else {
        let rest = listed_invitations(invitations.drop_last(), lookups.drop_last());
        if lookup_complete(lookups.last()) {
            rest.push(invitations.len() - 1)
        } else {
            rest
        }
    }
}

/// `r[k]` is the listing of invitation `idx[k]` with the names its lookup found.
pub open spec fn lists_invitations(
    r: Seq<MissionInvitationModel>,
    invitations: Seq<MissionInvitationEntity>,
    lookups: Seq<InvitationLookup>,
    idx: Seq<int>,
) -> bool {
    &&& r.len() == idx.len()
    &&& forall|k: int| 0 <= k < r.len() ==> 0 <= #[trigger] idx[k] < invitations.len()
    &&& forall|k: int| 0 <= k < r.len() ==> lookup_complete(lookups[#[trigger] idx[k]])
    &&& forall|k: int|
        0 <= k < r.len() ==> is_invitation_model(
            #[trigger] r[k],
            invitations[idx[k]],
            lookups[idx[k]].mission_name->0@,
            lookups[idx[k]].inviter_name->0@,
            lookups[idx[k]].invitee_name->0@,
        )
}

/// `r` lists those of `invitations` whose lookups in `lookups` all found
/// what they looked for, in their order, with the names found.
pub open spec fn lists_found_invitations(
    r: Seq<MissionInvitationModel>,
    invitations: Seq<MissionInvitationEntity>,
    lookups: Seq<InvitationLookup>,
) -> bool {
    &&& invitations.len() == lookups.len()
    &&& lists_invitations(r, invitations, lookups, listed_invitations(invitations, lookups))
}

/// Lists the invitations whose mission, inviter and invitee were all found,
/// skipping the others.
pub fn assemble_invitations(
    invitations: Vec<MissionInvitationEntity>,
    lookups: Vec<InvitationLookup>,
) -> (r: Vec<MissionInvitationModel>)
    requires
        invitations@.len() == lookups@.len(),
    ensures
        lists_invitations(r@, invitations@, lookups@, listed_invitations(invitations@, lookups@)),
{
    let mut result: Vec<MissionInvitationModel> = Vec::new();
    let n = invitations.len();
    let mut j: usize = 0;
    while j < n
        invariant
            n == invitations@.len(),
            n == lookups@.len(),
            j <= n,
            lists_invitations(
                result@,
                invitations@.subrange(0, j as int),
                lookups@.subrange(0, j as int),
                listed_invitations(invitations@.subrange(0, j as int), lookups@.subrange(0, j as int)),
            ),
        decreases n - j,
    {
        let ghost prev = result@;
        proof {
            assert(invitations@.subrange(0, j + 1).drop_last() =~= invitations@.subrange(
                0,
                j as int,
            ));
            assert(lookups@.subrange(0, j + 1).drop_last() =~= lookups@.subrange(0, j as int));
            assert(lookups@.subrange(0, j + 1).last() == lookups@[j as int]);
        }
        let inv = &invitations[j];
        let l = &lookups[j];
        assert(*l == lookups@[j as int]);
        let complete = l.mission_name.is_some() && l.inviter_name.is_some()
            && l.invitee_name.is_some();
        let ghost idx = listed_invitations(
            invitations@.subrange(0, j + 1),
            lookups@.subrange(0, j + 1),
        );
        let ghost old_idx = listed_invitations(
            invitations@.subrange(0, j as int),
            lookups@.subrange(0, j as int),
        );
        if complete {
            let m = MissionInvitationModel {
                invitation_id: inv.id,
                mission_id: inv.mission_id,
                mission_name: l.mission_name.as_ref().unwrap().clone(),
                inviter_id: inv.inviter_id,
                inviter_name: l.inviter_name.as_ref().unwrap().clone(),
                invitee_id: inv.invitee_id,
                invitee_name: l.invitee_name.as_ref().unwrap().clone(),
                status: inv.status.clone(),
                created_at: inv.created_at.clone(),
            };
            result.push(m);
            proof {
                assert(lookup_complete(lookups@[j as int]));
                assert(idx == old_idx.push(j as int));
                let isub = invitations@.subrange(0, j + 1);
                let lsub = lookups@.subrange(0, j + 1);
                assert forall|k: int| 0 <= k < result@.len() implies 0 <= #[trigger] idx[k] < isub.len()
                    && lookup_complete(lsub[idx[k]]) && is_invitation_model(
                    result@[k],
                    isub[idx[k]],
                    lsub[idx[k]].mission_name->0@,
                    lsub[idx[k]].inviter_name->0@,
                    lsub[idx[k]].invitee_name->0@,
                ) by {
                    if k < prev.len() {
                        assert(result@[k] == prev[k]);
                        assert(idx[k] == old_idx[k]);
                        assert(isub[idx[k]] == invitations@.subrange(0, j as int)[idx[k]]);
                        assert(lsub[idx[k]] == lookups@.subrange(0, j as int)[idx[k]]);
                    }
                }
            }
        } else {
            proof {
                assert(!lookup_complete(lookups@[j as int]));
                assert(idx == old_idx);
                let isub = invitations@.subrange(0, j + 1);
                let lsub = lookups@.subrange(0, j + 1);
                assert forall|k: int| 0 <= k < result@.len() implies 0 <= #[trigger] idx[k] < isub.len()
                    && lookup_complete(lsub[idx[k]]) && is_invitation_model(
                    result@[k],
                    isub[idx[k]],
                    lsub[idx[k]].mission_name->0@,
                    lsub[idx[k]].inviter_name->0@,
                    lsub[idx[k]].invitee_name->0@,
                ) by {
                    assert(isub[idx[k]] == invitations@.subrange(0, j as int)[idx[k]]);
                    assert(lsub[idx[k]] == lookups@.subrange(0, j as int)[idx[k]]);
                }
            }
        }
        j = j + 1;
    }
    proof {
        assert(invitations@.subrange(0, n as int) =~= invitations@);
        assert(lookups@.subrange(0, n as int) =~= lookups@);
    }
    result
}

// ------------------------------------------------------ answering invitations

/// What is known while an invitation is answered: what was read so far.
pub struct ResponseFacts {
    /// The mission that the invitation is into.
    pub mission: Option<MissionEntity>,
    /// Whether the invitee is already in that mission's crew.
    pub already_member: Option<bool>,
    /// The invitee's current active mission, if any.
    pub current_mission: Option<Option<i32>>,
    /// The size of the mission's crew.
    pub crew_count: Option<i64>,
}

/// The next thing to do while an invitation is answered.
pub enum ResponseStep {
    /// Read the invitation's mission.
    NeedMission,
    /// Read whether the invitee is in its crew.
    NeedMembership,
    /// Read the invitee's current active mission.
    NeedCurrentMission,
    /// Read the size of the mission's crew.
    NeedCrewCount,
    /// Refuse: the invitation is addressed to someone else.
    NotForYou,
    /// Refuse: the crew limit setting is not a number.
    InvalidCrewLimit,
    /// Refuse: the invitee leads the mission.
    ChiefAlreadyInSquad,
    /// Refuse: the invitee is in the active mission `mission_id`.
    InAnotherMission { mission_id: i32 },
    /// Refuse: the mission takes no new crew.
    NotJoinable,
    /// Refuse: the mission's crew is full.
    Full,
    /// Mark the invitation rejected.
    Reject,
    /// The invitee is already in the crew: mark the invitation accepted.
    AcceptOnly,
    /// Put the invitee in the crew and mark the invitation accepted.
    JoinAndAccept,
}

/// A mission takes new crew while it is Open, or after it Failed.
pub open spec fn joinable(status: Seq<char>) -> bool {
    has_status(status, MissionStatuses::Open) || has_status(status, MissionStatuses::Failed)
}

/// The rule for answering an invitation addressed to `invitee_id`: `user_id`
/// answers (`accept` or not) under the crew limit `max_crew` (`None` when the
/// setting is not a number), knowing `facts`. The checks come in this order,
/// and each read is asked for only when a check needs it.
pub open spec fn response_step(
    user_id: i32,
    accept: bool,
    invitee_id: i32,
    max_crew: Option<i64>,
    facts: ResponseFacts,
) -> ResponseStep {
    if invitee_id != user_id {
        ResponseStep::NotForYou
    } else if !accept {
        ResponseStep::Reject
    } else if max_crew is None {
        ResponseStep::InvalidCrewLimit
    } else {
        match facts.mission {
            None => ResponseStep::NeedMission,
            Some(m) => if m.chief_id == user_id {
                ResponseStep::ChiefAlreadyInSquad
            } else {
                match facts.already_member {
                    None => ResponseStep::NeedMembership,
                    Some(true) => ResponseStep::AcceptOnly,
                    Some(false) => match facts.current_mission {
                        None => ResponseStep::NeedCurrentMission,
                        Some(Some(cid)) => ResponseStep::InAnotherMission { mission_id: cid },
                        Some(None) => match facts.crew_count {
                            None => ResponseStep::NeedCrewCount,
                            Some(cc) => if !joinable(m.status@) {
                                ResponseStep::NotJoinable
                            } else if cc >= max_crew->0 {
                                ResponseStep::Full
                            } else {
                                ResponseStep::JoinAndAccept
                            },
                        },
                    },
                }
            },
        }
    }
}

/// The next step in answering an invitation, by `response_step`.
pub fn next_response_step(
    user_id: i32,
    accept: bool,
    invitee_id: i32,
    max_crew: Option<i64>,
    facts: &ResponseFacts,
) -> (s: ResponseStep)
    ensures
        s == response_step(user_id, accept, invitee_id, max_crew, *facts),
{
    if invitee_id != user_id {
        return ResponseStep::NotForYou;
    }
    if !accept {
        return ResponseStep::Reject;
    }
    let max = match max_crew {
        Some(v) => v,
        None => return ResponseStep::InvalidCrewLimit,
    };
    let m = match &facts.mission {
        None => return ResponseStep::NeedMission,
        Some(m) => m,
    };
    if m.chief_id == user_id {
        return ResponseStep::ChiefAlreadyInSquad;
    }
    match facts.already_member {
        None => ResponseStep::NeedMembership,
        Some(true) => ResponseStep::AcceptOnly,
        Some(false) => match facts.current_mission {
            None => ResponseStep::NeedCurrentMission,
            Some(Some(cid)) => ResponseStep::InAnotherMission { mission_id: cid },
            Some(None) => match facts.crew_count {
                None => ResponseStep::NeedCrewCount,
                Some(cc) => {
                    let st = m.status.as_str();
                    if !(MissionStatuses::Open.matches(st) || MissionStatuses::Failed.matches(st)) {
                        ResponseStep::NotJoinable
                    } else if cc >= max {
                        ResponseStep::Full
                    } else {
                        ResponseStep::JoinAndAccept
                    }
                },
            },
        },
    }
}

/// Only the invitee answers an invitation; a refusal to join is a rejection;
/// and a brawler joins a crew through an invitation only when they accept it,
/// the crew limit is known, they do not lead the mission, are not in its crew
/// and in no other active mission, the mission is Open or Failed, and its
/// crew is below the limit.
pub proof fn lemma_invitation_response(
    user_id: i32,
    accept: bool,
    invitee_id: i32,
    max_crew: Option<i64>,
    facts: ResponseFacts,
)
    ensures
        invitee_id != user_id ==> response_step(user_id, accept, invitee_id, max_crew, facts)
            is NotForYou,
        response_step(user_id, accept, invitee_id, max_crew, facts) is Reject <==> (invitee_id
            == user_id && !accept),
        response_step(user_id, accept, invitee_id, max_crew, facts) is JoinAndAccept ==> {
            &&& invitee_id == user_id
            &&& accept
            &&& max_crew matches Some(max) && facts.crew_count matches Some(cc) && cc < max
            &&& facts.mission matches Some(m) && m.chief_id != user_id && joinable(m.status@)
            &&& facts.already_member == Some(false)
            &&& facts.current_mission == Some(None::<i32>)
        },
        response_step(user_id, accept, invitee_id, max_crew, facts) is AcceptOnly ==> accept
            && facts.already_member == Some(true),
{
}

/// The crew limit that the setting gives: its decimal value, 4 when it is
/// not set, `None` when it is not a decimal `i64`.
pub open spec fn crew_limit(setting: Option<String>) -> Option<i64> {
    match setting {
        Some(s) => parsed_i64(s@),
        None => Some(4),
    }
}

/// Whether, knowing `facts`, the rule lets the invitee `user_id` carry out
/// their answer (`accept` or not) under the crew limit `max_crew`: a
/// rejection, or an acceptance that joins the crew or finds them in it.
pub open spec fn answer_carried_out(
    user_id: i32,
    accept: bool,
    max_crew: Option<i64>,
    facts: ResponseFacts,
) -> bool {
    let s = response_step(user_id, accept, user_id, max_crew, facts);
    if accept {
        s is AcceptOnly || s is JoinAndAccept
    } else {
        s is Reject
    }
}

/// The crew limit that applies to an answer to `inv` by `user_id`: the
/// setting's, for an acceptance by the invitee; none otherwise.
pub open spec fn limit_for(
    inv: MissionInvitationEntity,
    user_id: i32,
    accept: bool,
    setting: Option<String>,
) -> Option<i64> {
    if inv.invitee_id == user_id && accept {
        crew_limit(setting)
    } else {
        None
    }
}

/// How many of the reads are still missing.
pub open spec fn missing_facts(f: ResponseFacts) -> int {
    (if f.mission is None { 1int } else { 0 }) + (if f.already_member is None { 1int } else { 0 })
        + (if f.current_mission is None { 1int } else { 0 }) + (if f.crew_count is None { 1int } else { 0 })
}

/// Whether the step is a read.
pub open spec fn is_read_step(s: ResponseStep) -> bool {
    s is NeedMission || s is NeedMembership || s is NeedCurrentMission || s is NeedCrewCount
}

/// Whether the step `s` asks for a read.
pub fn step_needs_read(s: &ResponseStep) -> (b: bool)
    ensures
        b == is_read_step(*s),
{
    match s {
        ResponseStep::NeedMission => true,
        ResponseStep::NeedMembership => true,
        ResponseStep::NeedCurrentMission => true,
        ResponseStep::NeedCrewCount => true,
        _ => false,
    }
}

/// The use case for friendships and mission invitations.
pub struct SocialUseCase<T1, T2, T3, T4, T5> where
    T1: FriendshipRepository + Send + Sync,
    T2: MissionInvitationRepository + Send + Sync,
    T3: BrawlerRepository + Send + Sync,
    T4: MissionViewingRepository + Send + Sync,
    T5: CrewOperationRepository + Send + Sync,
 {
    friendship_repo: Arc<T1>,
    invitation_repo: Arc<T2>,
    brawlers_repo: Arc<T3>,
    mission_repo: Arc<T4>,
    crew_repo: Arc<T5>,
    pub realtime_hub: SharedRealtimeHub,
}

impl<T1, T2, T3, T4, T5> SocialUseCase<T1, T2, T3, T4, T5> where
    T1: FriendshipRepository + Send + Sync,
    T2: MissionInvitationRepository + Send + Sync,
    T3: BrawlerRepository + Send + Sync,
    T4: MissionViewingRepository + Send + Sync,
    T5: CrewOperationRepository + Send + Sync,
 {
    /// The hub through which status changes and requests are announced.
    pub closed spec fn hub(&self) -> SharedRealtimeHub {
        self.realtime_hub
    }

    /// The repositories that the use case works on.
    pub closed spec fn repositories(&self) -> (Arc<T1>, Arc<T2>, Arc<T3>, Arc<T4>, Arc<T5>) {
        (self.friendship_repo, self.invitation_repo, self.brawlers_repo, self.mission_repo, self.crew_repo)
    }

    pub fn new(
        friendship_repo: Arc<T1>,
        invitation_repo: Arc<T2>,
        brawlers_repo: Arc<T3>,
        mission_repo: Arc<T4>,
        crew_repo: Arc<T5>,
        realtime_hub: SharedRealtimeHub,
    ) -> (r: Self)
        ensures
            r.repositories() == (friendship_repo, invitation_repo, brawlers_repo, mission_repo, crew_repo),
            r.hub() == realtime_hub,
    {
        SocialUseCase {
            friendship_repo,
            invitation_repo,
            brawlers_repo,
            mission_repo,
            crew_repo,
            realtime_hub,
        }
    }

    /// Sends a pending friend request from `user_id` to `friend_id`, as
    /// `check_friend_request` allows, and tells `friend_id` about it: a
    /// request to oneself is refused before anything is read; then the
    /// friendship between the two is looked up, and only when there is none
    /// is the pending request stored, its id being the result.
    pub fn add_friend(&self, user_id: i32, friend_id: i32, log: &mut EffectLog) -> (r: Result<i32, SocialError>)
        ensures
            user_id == friend_id <==> r matches Err(SocialError::CannotAddSelf),
            user_id == friend_id ==> final(log)@ == old(log)@,
            r is Err ==> (r matches Err(SocialError::CannotAddSelf) || r matches Err(
                SocialError::FriendshipAlreadyExists,
            ) || r matches Err(SocialError::Repository(_))),
            user_id != friend_id ==> exists|c: Result<Option<FriendshipEntity>, RepositoryError>|
                #[trigger] self.repositories().0.check_friendship_outcome(user_id, friend_id, c)
                    && match c {
                    Err(e) => r == Err::<i32, SocialError>(SocialError::Repository(e)) && final(log)@
                        == old(log)@,
                    Ok(Some(_)) => r == Err::<i32, SocialError>(SocialError::FriendshipAlreadyExists)
                        && final(log)@ == old(log)@,
                    Ok(None) => exists|ent: AddFriendshipEntity, o: Result<i32, RepositoryError>|
                        #[trigger] self.repositories().0.add_outcome(ent, o) && is_request_for(
                            ent,
                            user_id,
                            friend_id,
                        ) && r == lift_repository(o) && final(log)@ == if o is Ok {
                            old(log)@.push(Effect::FriendshipAdded(ent)).push(
                                Effect::Announced(RealtimeEvent::FriendRequest { from_id: user_id, to_id: friend_id }),
                            )
                        } else {
                            old(log)@.push(Effect::FriendshipAdded(ent))
                        },
                },
    {
        if user_id == friend_id {
            return Err(SocialError::CannotAddSelf);
        }
        let checked = self.friendship_repo.check_friendship(user_id, friend_id);
        let ghost c = checked;
        assert(self.repositories().0.check_friendship_outcome(user_id, friend_id, c));
        let existing = match checked {
            Ok(f) => f,
            Err(e) => return Err(SocialError::Repository(e)),
        };
        match check_friend_request(user_id, friend_id, &existing) {
            Ok(()) => {},
            Err(e) => return Err(e),
        }
        let ent = AddFriendshipEntity { user_id, friend_id, status: String::from_str("pending") };
        proof {
            reveal_strlit("pending");
        }
        let ghost eg = ent;
        assert(is_request_for(eg, user_id, friend_id));
        let o = self.friendship_repo.add(ent, log);
        let ghost og = o;
        let r: Result<i32, SocialError> = match o {
            Ok(id) => Ok(id),
            Err(e) => Err(SocialError::Repository(e)),
        };
        assert(self.repositories().0.add_outcome(eg, og) && r == lift_repository(og));
        if r.is_ok() {
            self.realtime_hub.broadcast(RealtimeEvent::FriendRequest { from_id: user_id, to_id: friend_id }, log);
        }
        r
    }

    /// Accepts the request that `friend_id` sent to `user_id`.
    pub fn accept_friend(&self, user_id: i32, friend_id: i32, log: &mut EffectLog) -> (r: Result<(), SocialError>)
        ensures
            final(log)@ == old(log)@.push((Effect::FriendshipAccepted { user_id: friend_id, friend_id: user_id })),
            exists|o: Result<(), RepositoryError>|
                #[trigger] self.repositories().0.accept_outcome(friend_id, user_id, o) && r
                    == lift_repository(o),
    {
        let o = self.friendship_repo.accept(friend_id, user_id, log);
        let ghost outcome = o;
        let r = match o {
            Ok(()) => Ok(()),
            Err(e) => Err(SocialError::Repository(e)),
        };
        assert(self.repositories().0.accept_outcome(friend_id, user_id, outcome) && r
            == lift_repository(outcome));
        r
    }

    /// The friendship between `user_id` and `other_id`, as `friendship_status_of` reports it.
    pub fn get_friendship_status(&self, user_id: i32, other_id: i32) -> (r: Result<
        FriendshipStatusModel,
        SocialError,
    >)
        ensures
            r matches Ok(m) ==> exists|f: Option<FriendshipEntity>| #[trigger] reports_friendship(m, f),
            r is Err ==> r matches Err(SocialError::Repository(_)),
            exists|c: Result<Option<FriendshipEntity>, RepositoryError>|
                #[trigger] self.repositories().0.check_friendship_outcome(user_id, other_id, c)
                    && match c {
                    Err(e) => r == Err::<FriendshipStatusModel, SocialError>(SocialError::Repository(e)),
                    Ok(f) => r matches Ok(m) && reports_friendship(m, f),
                },
    {
        let checked = self.friendship_repo.check_friendship(user_id, other_id);
        let ghost c = checked;
        let r = match checked {
            Ok(f) => Ok(friendship_status_of(&f)),
            Err(e) => Err(SocialError::Repository(e)),
        };
        assert(self.repositories().0.check_friendship_outcome(user_id, other_id, c));
        r
    }

    /// Ends the friendship between `user_id` and `friend_id`: the storage's
    /// outcome for the two, in that order.
    pub fn remove_friend(&self, user_id: i32, friend_id: i32, log: &mut EffectLog) -> (r: Result<(), SocialError>)
        ensures
            final(log)@ == old(log)@.push((Effect::FriendshipRemoved { user_id1: user_id, user_id2: friend_id })),
            exists|o: Result<(), RepositoryError>|
                #[trigger] self.repositories().0.remove_outcome(user_id, friend_id, o) && r
                    == lift_repository(o),
    {
        let o = self.friendship_repo.remove(user_id, friend_id, log);
        let ghost outcome = o;
        let r = match o {
            Ok(()) => Ok(()),
            Err(e) => Err(SocialError::Repository(e)),
        };
        assert(self.repositories().0.remove_outcome(user_id, friend_id, outcome) && r
            == lift_repository(outcome));
        r
    }

    /// Rejects (deletes) the request that `friend_id` sent to `user_id`: the
    /// storage's outcome for the request of `friend_id` to `user_id`.
    pub fn reject_friend(&self, user_id: i32, friend_id: i32, log: &mut EffectLog) -> (r: Result<(), SocialError>)
        ensures
            final(log)@ == old(log)@.push((Effect::FriendshipRejected { user_id: friend_id, friend_id: user_id })),
            exists|o: Result<(), RepositoryError>|
                #[trigger] self.repositories().0.reject_outcome(friend_id, user_id, o) && r
                    == lift_repository(o),
    {
        let o = self.friendship_repo.reject(friend_id, user_id, log);
        let ghost outcome = o;
        let r = match o {
            Ok(()) => Ok(()),
            Err(e) => Err(SocialError::Repository(e)),
        };
        assert(self.repositories().0.reject_outcome(friend_id, user_id, outcome) && r
            == lift_repository(outcome));
        r
    }

    /// `v` lists the friends of `user_id` from what the storage gave: `fs`,
    /// the accepted friendships of `user_id`, and for each of them `bs[i]`,
    /// the brawler on its other side.
    pub open spec fn friends_listed(
        &self,
        user_id: i32,
        fs: Vec<FriendshipEntity>,
        bs: Seq<BrawlerEntity>,
        v: Seq<FriendModel>,
    ) -> bool {
        &&& self.repositories().0.get_friends_outcome(user_id, Ok(fs))
        &&& bs.len() == fs@.len()
        &&& v.len() == fs@.len()
        &&& forall|i: int|
            0 <= i < fs@.len() ==> self.repositories().2.find_by_id_outcome(
                other_party(fs@[i], user_id),
                Ok(#[trigger] bs[i]),
            ) && is_friend_model(v[i], fs@[i], other_party(fs@[i], user_id), bs[i])
    }

    /// The error `e` is what the first failed read made to list the friends
    /// of `user_id` gave: the friendships, or else the brawler on the other
    /// side of the `i`-th friendship, the brawlers of all friendships before
    /// it (`bs`) having been found.
    pub open spec fn friends_read_failed(&self, user_id: i32, e: RepositoryError) -> bool {
        ||| self.repositories().0.get_friends_outcome(user_id, Err(e))
        ||| exists|fs: Vec<FriendshipEntity>, bs: Seq<BrawlerEntity>, i: int|
            #![trigger self.repositories().0.get_friends_outcome(user_id, Ok(fs)), bs.len(), self.repositories().2.find_by_id_outcome(other_party(fs@[i], user_id), Err(e))]
            self.repositories().0.get_friends_outcome(user_id, Ok(fs)) && 0 <= i < fs@.len()
                && bs.len() == i && (forall|k: int|
                0 <= k < i ==> self.repositories().2.find_by_id_outcome(
                    other_party(fs@[k], user_id),
                    Ok(#[trigger] bs[k]),
                )) && self.repositories().2.find_by_id_outcome(
                other_party(fs@[i], user_id),
                Err(e),
            )
    }

    /// The accepted friends of `user_id`, each listed through the friendship
    /// with the brawler on its other side; or the error of the first read
    /// that failed.
    pub fn get_friends(&self, user_id: i32) -> (r: Result<Vec<FriendModel>, SocialError>)
        ensures
            r matches Ok(v) ==> exists|fs: Vec<FriendshipEntity>, bs: Seq<BrawlerEntity>|
                #[trigger] self.friends_listed(user_id, fs, bs, v@),
            r matches Err(e) ==> e matches SocialError::Repository(re) && self.friends_read_failed(
                user_id,
                re,
            ),
    {
        let o = self.friendship_repo.get_friends(user_id);
        let friendships = match o {
            Ok(v) => v,
            Err(e) => return Err(SocialError::Repository(e)),
        };
        assert(self.repositories().0.get_friends_outcome(user_id, Ok(friendships)));
        let mut result: Vec<FriendModel> = Vec::new();
        let ghost mut bs: Seq<BrawlerEntity> = Seq::empty();
        let n = friendships.len();
        let mut i: usize = 0;
        while i < n
            invariant
                n == friendships@.len(),
                i <= n,
                self.repositories().0.get_friends_outcome(user_id, Ok(friendships)),
                bs.len() == i,
                result@.len() == i,
                forall|k: int|
                    0 <= k < i ==> self.repositories().2.find_by_id_outcome(
                        other_party(friendships@[k], user_id),
                        Ok(#[trigger] bs[k]),
                    ) && is_friend_model(
                        result@[k],
                        friendships@[k],
                        other_party(friendships@[k], user_id),
                        bs[k],
                    ),
            decreases n - i,
        {
            let f = &friendships[i];
            let friend_id = friend_of(f, user_id);
            let brawler = match self.brawlers_repo.find_by_id(friend_id) {
                Ok(b) => b,
                Err(e) => {
                    assert(self.repositories().2.find_by_id_outcome(
                        other_party(friendships@[i as int], user_id),
                        Err(e),
                    ));
                    assert(self.friends_read_failed(user_id, e));
                    return Err(SocialError::Repository(e));
                },
            };
            proof {
                bs = bs.push(brawler);
            }
            result.push(friend_model(f, friend_id, brawler));
            i = i + 1;
        }
        assert(self.friends_listed(user_id, friendships, bs, result@));
        let r: Result<Vec<FriendModel>, SocialError> = Ok(result);
        assert(r matches Ok(v) && self.friends_listed(user_id, friendships, bs, v@));
        r
    }

    /// `v` lists the requests to `user_id` from what the storage gave: `fs`,
    /// the pending requests to `user_id`, and for each of them `bs[i]`, the
    /// brawler who sent it.
    pub open spec fn requests_listed(
        &self,
        user_id: i32,
        fs: Vec<FriendshipEntity>,
        bs: Seq<BrawlerEntity>,
        v: Seq<FriendModel>,
    ) -> bool {
        &&& self.repositories().0.get_pending_requests_outcome(user_id, Ok(fs))
        &&& bs.len() == fs@.len()
        &&& v.len() == fs@.len()
        &&& forall|i: int|
            0 <= i < fs@.len() ==> self.repositories().2.find_by_id_outcome(
                fs@[i].user_id,
                Ok(#[trigger] bs[i]),
            ) && is_friend_model(v[i], fs@[i], fs@[i].user_id, bs[i])
    }

    /// The error `e` is what the first failed read made to list the requests
    /// to `user_id` gave: the requests, or else the brawler who sent the
    /// `i`-th one, the senders of all requests before it (`bs`) having been
    /// found.
    pub open spec fn requests_read_failed(&self, user_id: i32, e: RepositoryError) -> bool {
        ||| self.repositories().0.get_pending_requests_outcome(user_id, Err(e))
        ||| exists|fs: Vec<FriendshipEntity>, bs: Seq<BrawlerEntity>, i: int|
            #![trigger self.repositories().0.get_pending_requests_outcome(user_id, Ok(fs)), bs.len(), self.repositories().2.find_by_id_outcome(fs@[i].user_id, Err(e))]
            self.repositories().0.get_pending_requests_outcome(user_id, Ok(fs)) && 0 <= i
                < fs@.len() && bs.len() == i && (forall|k: int|
                0 <= k < i ==> self.repositories().2.find_by_id_outcome(
                    fs@[k].user_id,
                    Ok(#[trigger] bs[k]),
                )) && self.repositories().2.find_by_id_outcome(
                fs@[i].user_id,
                Err(e),
            )
    }

    /// The pending requests to `user_id`, each listed with the brawler who
    /// sent it; or the error of the first read that failed.
    pub fn get_pending_requests(&self, user_id: i32) -> (r: Result<Vec<FriendModel>, SocialError>)
        ensures
            r matches Ok(v) ==> exists|fs: Vec<FriendshipEntity>, bs: Seq<BrawlerEntity>|
                #[trigger] self.requests_listed(user_id, fs, bs, v@),
            r matches Err(e) ==> e matches SocialError::Repository(re) && self.requests_read_failed(
                user_id,
                re,
            ),
    {
        let o = self.friendship_repo.get_pending_requests(user_id);
        let requests = match o {
            Ok(v) => v,
            Err(e) => return Err(SocialError::Repository(e)),
        };
        assert(self.repositories().0.get_pending_requests_outcome(user_id, Ok(requests)));
        let mut result: Vec<FriendModel> = Vec::new();
        let ghost mut bs: Seq<BrawlerEntity> = Seq::empty();
        let n = requests.len();
        let mut i: usize = 0;
        while i < n
            invariant
                n == requests@.len(),
                i <= n,
                self.repositories().0.get_pending_requests_outcome(user_id, Ok(requests)),
                bs.len() == i,
                result@.len() == i,
                forall|k: int|
                    0 <= k < i ==> self.repositories().2.find_by_id_outcome(
                        requests@[k].user_id,
                        Ok(#[trigger] bs[k]),
                    ) && is_friend_model(result@[k], requests@[k], requests@[k].user_id, bs[k]),
            decreases n - i,
        {
            let f = &requests[i];
            let brawler = match self.brawlers_repo.find_by_id(f.user_id) {
                Ok(b) => b,
                Err(e) => {
                    assert(self.repositories().2.find_by_id_outcome(requests@[i as int].user_id, Err(e)));
                    assert(self.requests_read_failed(user_id, e));
                    return Err(SocialError::Repository(e));
                },
            };
            proof {
                bs = bs.push(brawler);
            }
            result.push(friend_model(f, f.user_id, brawler));
            i = i + 1;
        }
        assert(self.requests_listed(user_id, requests, bs, result@));
        let r: Result<Vec<FriendModel>, SocialError> = Ok(result);
        assert(r matches Ok(v) && self.requests_listed(user_id, requests, bs, v@));
        r
    }

    /// The friendship found between the inviter and the invitee allows the
    /// invitation (see `check_can_invite`).
    pub open spec fn invitation_allowed(&self, inviter_id: i32, invitee_id: i32, f: FriendshipEntity) -> bool {
        &&& self.repositories().0.check_friendship_outcome(inviter_id, invitee_id, Ok(Some(f)))
        &&& is_accepted(f.status@)
    }

    /// The invitation got the id `id`: the friendship `f` found between the
    /// two allows it, the earlier invitations of the invitee into the mission
    /// were deleted, and `ent`, the pending invitation, was stored.
    pub open spec fn invitation_made(
        &self,
        inviter_id: i32,
        invitee_id: i32,
        mission_id: i32,
        f: FriendshipEntity,
        ent: AddMissionInvitationEntity,
        id: i32,
    ) -> bool {
        &&& self.invitation_allowed(inviter_id, invitee_id, f)
        &&& self.repositories().1.delete_existing_outcome(mission_id, invitee_id, Ok(()))
        &&& is_invitation_for(ent, mission_id, inviter_id, invitee_id)
        &&& self.repositories().1.invite_outcome(ent, Ok(id))
    }

    /// The error `e` is what a step of the invitation gave, and the log went
    /// from `before` to `after` by the writes made up to it: finding the
    /// friendship (no write), or, once it allows the invitation, deleting the
    /// earlier invitations, or, after that, storing the new one.
    pub open spec fn invitation_failed(
        &self,
        inviter_id: i32,
        invitee_id: i32,
        mission_id: i32,
        e: RepositoryError,
        before: Seq<Effect>,
        after: Seq<Effect>,
    ) -> bool {
        let deleted = Effect::InvitationsDeleted { mission_id, invitee_id };
        ||| self.repositories().0.check_friendship_outcome(inviter_id, invitee_id, Err(e)) && after
            == before
        ||| exists|f: FriendshipEntity|
            #[trigger] self.invitation_allowed(inviter_id, invitee_id, f) && {
                ||| self.repositories().1.delete_existing_outcome(mission_id, invitee_id, Err(e))
                    && after == before.push(deleted)
                ||| self.repositories().1.delete_existing_outcome(mission_id, invitee_id, Ok(()))
                    && exists|ent: AddMissionInvitationEntity|
                    is_invitation_for(ent, mission_id, inviter_id, invitee_id)
                        && #[trigger] self.repositories().1.invite_outcome(ent, Err(e)) && after
                        == before.push(deleted).push(Effect::InvitationSent(ent))
            }
    }

    /// Invites `invitee_id`, an accepted friend of `inviter_id`, into the
    /// mission, replacing any earlier invitation of theirs into it, and tells
    /// the invitee. The result is the new invitation's id; a friendship that
    /// is missing or not accepted is refused before anything is changed.
    pub fn invite_to_mission(
        &self,
        inviter_id: i32,
        invitee_id: i32,
        mission_id: i32,
        log: &mut EffectLog,
    ) -> (r: Result<i32, SocialError>)
        ensures
            r is Err ==> (r matches Err(SocialError::NotFriends) || r matches Err(
                SocialError::Repository(_),
            )),
            r matches Ok(id) ==> exists|f: FriendshipEntity, ent: AddMissionInvitationEntity|
                #[trigger] self.invitation_made(inviter_id, invitee_id, mission_id, f, ent, id)
                    && final(log)@ == old(log)@.push(Effect::InvitationsDeleted { mission_id, invitee_id }).push(
                    Effect::InvitationSent(ent),
                ).push(Effect::Announced(RealtimeEvent::MissionInvitation { mission_id, inviter_id, invitee_id })),
            r matches Err(SocialError::NotFriends) ==> final(log)@ == old(log)@ && exists|
                fo: Option<FriendshipEntity>,
            |
                #[trigger] self.repositories().0.check_friendship_outcome(inviter_id, invitee_id, Ok(fo))
                    && !(fo matches Some(f) && is_accepted(f.status@)),
            r matches Err(SocialError::Repository(e)) ==> self.invitation_failed(
                inviter_id,
                invitee_id,
                mission_id,
                e,
                old(log)@,
                final(log)@,
            ),
    {
        let ghost before = log@;
        let friendship = match self.friendship_repo.check_friendship(inviter_id, invitee_id) {
            Ok(f) => f,
            Err(e) => {
                assert(self.invitation_failed(inviter_id, invitee_id, mission_id, e, before, log@));
                return Err(SocialError::Repository(e));
            },
        };
        assert(self.repositories().0.check_friendship_outcome(inviter_id, invitee_id, Ok(friendship)));
        match check_can_invite(&friendship) {
            Ok(()) => {},
            Err(e) => return Err(e),
        }
        let ghost f = friendship->Some_0;
        assert(self.invitation_allowed(inviter_id, invitee_id, f));
        let deleted = self.invitation_repo.delete_existing(mission_id, invitee_id, log);
        match deleted {
            Ok(()) => {},
            Err(e) => {
                assert(self.invitation_failed(inviter_id, invitee_id, mission_id, e, before, log@));
                return Err(SocialError::Repository(e));
            },
        }
        // The unit value carried by `Ok` is the only one there is.
        assert(deleted->Ok_0 == ());
        assert(deleted == Ok::<(), RepositoryError>(()));
        assert(self.repositories().1.delete_existing_outcome(mission_id, invitee_id, Ok(())));
        let ent = AddMissionInvitationEntity {
            mission_id,
            inviter_id,
            invitee_id,
            status: String::from_str("pending"),
        };
        proof {
            reveal_strlit("pending");
        }
        let ghost ent_g = ent;
        assert(is_invitation_for(ent_g, mission_id, inviter_id, invitee_id));
        let res = match self.invitation_repo.invite(ent, log) {
            Ok(id) => id,
            Err(e) => {
                assert(self.repositories().1.invite_outcome(ent_g, Err(e)));
                assert(self.invitation_failed(inviter_id, invitee_id, mission_id, e, before, log@));
                return Err(SocialError::Repository(e));
            },
        };
        assert(self.invitation_made(inviter_id, invitee_id, mission_id, f, ent_g, res));
        self.realtime_hub.broadcast(
            RealtimeEvent::MissionInvitation { mission_id, inviter_id, invitee_id },
            log,
        );
        let r: Result<i32, SocialError> = Ok(res);
        assert(r matches Ok(id) && self.invitation_made(inviter_id, invitee_id, mission_id, f, ent_g, id)
            && log@ == before.push(Effect::InvitationsDeleted { mission_id, invitee_id }).push(
            Effect::InvitationSent(ent_g),
        ).push(Effect::Announced(RealtimeEvent::MissionInvitation { mission_id, inviter_id, invitee_id })));
        r
    }

    /// `l` is what the lookups for the invitation `i` found: its mission's
    /// name, then its inviter's display name, then its invitee's, each
    /// looked up only when the one before was found, and `None` from the
    /// first that the storage did not give on.
    pub open spec fn looked_up(&self, i: MissionInvitationEntity, l: InvitationLookup) -> bool {
        ||| (exists|e: RepositoryError| #[trigger] self.repositories().3.get_one_outcome(i.mission_id, Err(e)))
            && l.mission_name is None && l.inviter_name is None && l.invitee_name is None
        ||| exists|m: MissionEntity|
            #[trigger] self.repositories().3.get_one_outcome(i.mission_id, Ok(m)) && l.mission_name
                == Some(m.name) && {
                ||| (exists|e: RepositoryError|
                    #[trigger] self.repositories().2.find_by_id_outcome(i.inviter_id, Err(e)))
                    && l.inviter_name is None && l.invitee_name is None
                ||| exists|b: BrawlerEntity|
                    #[trigger] self.repositories().2.find_by_id_outcome(i.inviter_id, Ok(b))
                        && l.inviter_name == Some(b.display_name) && {
                        ||| (exists|e: RepositoryError|
                            #[trigger] self.repositories().2.find_by_id_outcome(i.invitee_id, Err(e)))
                            && l.invitee_name is None
                        ||| exists|c: BrawlerEntity|
                            #[trigger] self.repositories().2.find_by_id_outcome(i.invitee_id, Ok(c))
                                && l.invitee_name == Some(c.display_name)
                    }
            }
    }

    /// `v` lists the invitations `invs` whose lookups `lookups` all found
    /// what they looked for, each lookup being what the storage gave for its
    /// invitation.
    pub open spec fn invitations_listed(
        &self,
        invs: Seq<MissionInvitationEntity>,
        lookups: Seq<InvitationLookup>,
        v: Seq<MissionInvitationModel>,
    ) -> bool {
        &&& lookups.len() == invs.len()
        &&& forall|k: int| 0 <= k < invs.len() ==> self.looked_up(invs[k], #[trigger] lookups[k])
        &&& lists_found_invitations(v, invs, lookups)
    }

    /// Looks up the mission, inviter and invitee of an invitation, stopping at
    /// the first that is not found.
    fn look_up(&self, i: &MissionInvitationEntity) -> (l: InvitationLookup)
        ensures
            self.looked_up(*i, l),
    {
        let mission_name = match self.mission_repo.get_one(i.mission_id) {
            Ok(m) => m.name,
            Err(e) => {
                assert(self.repositories().3.get_one_outcome(i.mission_id, Err(e)));
                return InvitationLookup { mission_name: None, inviter_name: None, invitee_name: None };
            },
        };
        let ghost m = choose|m: MissionEntity|
            self.repositories().3.get_one_outcome(i.mission_id, Ok(m)) && m.name == mission_name;
        assert(self.repositories().3.get_one_outcome(i.mission_id, Ok(m)) && m.name == mission_name);
        let inviter_name = match self.brawlers_repo.find_by_id(i.inviter_id) {
            Ok(b) => b.display_name,
            Err(e) => {
                assert(self.repositories().2.find_by_id_outcome(i.inviter_id, Err(e)));
                let l = InvitationLookup {
                    mission_name: Some(mission_name),
                    inviter_name: None,
                    invitee_name: None,
                };
                assert(self.looked_up(*i, l));
                return l;
            },
        };
        let ghost b = choose|b: BrawlerEntity|
            self.repositories().2.find_by_id_outcome(i.inviter_id, Ok(b)) && b.display_name
                == inviter_name;
        assert(self.repositories().2.find_by_id_outcome(i.inviter_id, Ok(b)) && b.display_name
            == inviter_name);
        let invitee_name = match self.brawlers_repo.find_by_id(i.invitee_id) {
            Ok(c) => {
                assert(self.repositories().2.find_by_id_outcome(i.invitee_id, Ok(c)));
                Some(c.display_name)
            },
            Err(e) => {
                assert(self.repositories().2.find_by_id_outcome(i.invitee_id, Err(e)));
                None
            },
        };
        let l = InvitationLookup {
            mission_name: Some(mission_name),
            inviter_name: Some(inviter_name),
            invitee_name,
        };
        assert(self.looked_up(*i, l));
        l
    }

    /// Lists the invitations whose lookups all succeed.
    fn list_invitations(&self, invitations: Vec<MissionInvitationEntity>) -> (r: Vec<
        MissionInvitationModel,
    >)
        ensures
            exists|lookups: Seq<InvitationLookup>|
                #[trigger] self.invitations_listed(invitations@, lookups, r@),
    {
        let mut lookups: Vec<InvitationLookup> = Vec::new();
        let n = invitations.len();
        let mut i: usize = 0;
        while i < n
            invariant
                n == invitations@.len(),
                i <= n,
                lookups@.len() == i,
                forall|k: int| 0 <= k < i ==> self.looked_up(invitations@[k], #[trigger] lookups@[k]),
            decreases n - i,
        {
            let l = self.look_up(&invitations[i]);
            lookups.push(l);
            i = i + 1;
        }
        let ghost invs = invitations@;
        let ghost ls = lookups@;
        let r = assemble_invitations(invitations, lookups);
        assert(self.invitations_listed(invs, ls, r@));
        r
    }

    /// What listing the invitations gives for the storage's outcome `o`:
    /// its error, or the invitations whose lookups all succeed.
    pub open spec fn invitations_result(
        &self,
        o: Result<Vec<MissionInvitationEntity>, RepositoryError>,
        r: Result<Vec<MissionInvitationModel>, SocialError>,
    ) -> bool {
        match o {
            Err(e) => r == Err::<Vec<MissionInvitationModel>, SocialError>(SocialError::Repository(e)),
            Ok(invs) => r matches Ok(v) && exists|lookups: Seq<InvitationLookup>|
                #[trigger] self.invitations_listed(invs@, lookups, v@),
        }
    }

    /// The pending invitations of `user_id` whose mission, inviter and invitee
    /// still exist, with their names.
    pub fn get_my_invitations(&self, user_id: i32) -> (r: Result<Vec<MissionInvitationModel>, SocialError>)
        ensures
            exists|o: Result<Vec<MissionInvitationEntity>, RepositoryError>|
                #[trigger] self.repositories().1.get_received_invitations_outcome(user_id, o)
                    && self.invitations_result(o, r),
    {
        let o = self.invitation_repo.get_received_invitations(user_id);
        let ghost outcome = o;
        let invitations = match o {
            Ok(v) => v,
            Err(e) => {
                let r: Result<Vec<MissionInvitationModel>, SocialError> = Err(SocialError::Repository(e));
                assert(self.repositories().1.get_received_invitations_outcome(user_id, outcome) && self.invitations_result(outcome, r));
                return r;
            },
        };
        assert(outcome == Ok::<Vec<MissionInvitationEntity>, RepositoryError>(invitations));
        let ghost invs = invitations@;
        let v = self.list_invitations(invitations);
        let ghost ls = choose|lookups: Seq<InvitationLookup>| self.invitations_listed(invs, lookups, v@);
        assert(self.invitations_listed(invs, ls, v@));
        let r: Result<Vec<MissionInvitationModel>, SocialError> = Ok(v);
        assert(r matches Ok(w) && self.invitations_listed(outcome->Ok_0@, ls, w@));
        assert(self.repositories().1.get_received_invitations_outcome(user_id, outcome) && self.invitations_result(outcome, r));
        r
    }

    /// The invitations into the mission whose mission, inviter and invitee
    /// still exist, with their names.
    pub fn get_mission_invitations(&self, mission_id: i32) -> (r: Result<Vec<MissionInvitationModel>, SocialError>)
        ensures
            exists|o: Result<Vec<MissionInvitationEntity>, RepositoryError>|
                #[trigger] self.repositories().1.get_mission_invitations_outcome(mission_id, o)
                    && self.invitations_result(o, r),
    {
        let o = self.invitation_repo.get_mission_invitations(mission_id);
        let ghost outcome = o;
        let invitations = match o {
            Ok(v) => v,
            Err(e) => {
                let r: Result<Vec<MissionInvitationModel>, SocialError> = Err(SocialError::Repository(e));
                assert(self.repositories().1.get_mission_invitations_outcome(mission_id, outcome) && self.invitations_result(outcome, r));
                return r;
            },
        };
        assert(outcome == Ok::<Vec<MissionInvitationEntity>, RepositoryError>(invitations));
        let ghost invs = invitations@;
        let v = self.list_invitations(invitations);
        let ghost ls = choose|lookups: Seq<InvitationLookup>| self.invitations_listed(invs, lookups, v@);
        assert(self.invitations_listed(invs, ls, v@));
        let r: Result<Vec<MissionInvitationModel>, SocialError> = Ok(v);
        assert(r matches Ok(w) && self.invitations_listed(outcome->Ok_0@, ls, w@));
        assert(self.repositories().1.get_mission_invitations_outcome(mission_id, outcome) && self.invitations_result(outcome, r));
        r
    }

    /// Each fact that is known in `facts` is what its read of the storage
    /// gave, for the invitation `inv` answered by `user_id`.
    pub open spec fn facts_read(&self, inv: MissionInvitationEntity, user_id: i32, facts: ResponseFacts) -> bool {
        &&& facts.mission matches Some(m) ==> self.repositories().3.get_one_outcome(inv.mission_id, Ok(m))
        &&& facts.already_member matches Some(b) ==> self.repositories().4.is_member_outcome(
            inv.mission_id,
            user_id,
            Ok(b),
        )
        &&& facts.current_mission matches Some(c) ==> self.repositories().4.get_current_mission_outcome(
            user_id,
            Ok(c),
        )
        &&& facts.crew_count matches Some(cc) ==> self.repositories().3.crew_counting_outcome(
            inv.mission_id,
            Ok(cc),
        )
    }

    /// The outcome `o` of marking the invitation `inv` settles the answer:
    /// the invitation's mission, or the storage's error.
    pub open spec fn settled(o: Result<(), RepositoryError>, inv: MissionInvitationEntity, r: Result<i32, SocialError>) -> bool {
        match o {
            Ok(()) => r == Ok::<i32, SocialError>(inv.mission_id),
            Err(e) => r == Err::<i32, SocialError>(SocialError::Repository(e)),
        }
    }

    /// What answering the invitation `inv` (id `invitation_id`) leads to,
    /// once the rule, on `facts`, has come to a step that is not a read left
    /// to make: a read step here is one whose read failed. The log goes from
    /// `before` to `after`: it gains only the writes of the step the rule
    /// comes to, so nothing on a refusal or a failed read.
    pub open spec fn answer_outcome(
        &self,
        inv: MissionInvitationEntity,
        invitation_id: i32,
        user_id: i32,
        accept: bool,
        setting: Option<String>,
        facts: ResponseFacts,
        before: Seq<Effect>,
        after: Seq<Effect>,
        r: Result<i32, SocialError>,
    ) -> bool {
        let max_crew = limit_for(inv, user_id, accept, setting);
        let membership = CrewMemberShips { mission_id: inv.mission_id, brawler_id: user_id };
        match response_step(user_id, accept, inv.invitee_id, max_crew, facts) {
            ResponseStep::NeedMission => after == before && exists|e: RepositoryError|
                #[trigger] self.repositories().3.get_one_outcome(inv.mission_id, Err(e)) && r
                    == Err::<i32, SocialError>(SocialError::Repository(e)),
            ResponseStep::NeedMembership => after == before && exists|e: RepositoryError|
                #[trigger] self.repositories().4.is_member_outcome(inv.mission_id, user_id, Err(e))
                    && r == Err::<i32, SocialError>(SocialError::Repository(e)),
            ResponseStep::NeedCurrentMission => after == before && exists|e: RepositoryError|
                #[trigger] self.repositories().4.get_current_mission_outcome(user_id, Err(e)) && r
                    == Err::<i32, SocialError>(SocialError::Repository(e)),
            ResponseStep::NeedCrewCount => after == before && exists|e: RepositoryError|
                #[trigger] self.repositories().3.crew_counting_outcome(inv.mission_id, Err(e)) && r
                    == Err::<i32, SocialError>(SocialError::Repository(e)),
            ResponseStep::NotForYou => r == Err::<i32, SocialError>(SocialError::NotForYou) && after
                == before,
            ResponseStep::InvalidCrewLimit => r == Err::<i32, SocialError>(SocialError::InvalidCrewLimit)
                && after == before,
            ResponseStep::ChiefAlreadyInSquad => r == Err::<i32, SocialError>(
                SocialError::ChiefAlreadyInSquad,
            ) && after == before,
            ResponseStep::InAnotherMission { mission_id } => after == before && exists|
                g: Result<MissionEntity, RepositoryError>,
            |
                #[trigger] self.repositories().3.get_one_outcome(mission_id, g) && match g {
                    Ok(cm) => r == Err::<i32, SocialError>(
                        SocialError::AlreadyInAnotherMission { name: cm.name, code: cm.code },
                    ),
                    Err(e) => r == Err::<i32, SocialError>(SocialError::Repository(e)),
                },
            ResponseStep::NotJoinable => r == Err::<i32, SocialError>(
                SocialError::NotJoinable { status: facts.mission->Some_0.status },
            ) && after == before,
            ResponseStep::Full => r == Err::<i32, SocialError>(
                SocialError::MissionFull {
                    crew_count: facts.crew_count->Some_0,
                    max_crew_per_mission: max_crew->Some_0,
                },
            ) && after == before,
            ResponseStep::Reject => after == before.push(Effect::InvitationRejected(invitation_id))
                && exists|o: Result<(), RepositoryError>|
                #[trigger] self.repositories().1.reject_outcome(invitation_id, o) && Self::settled(o, inv, r),
            ResponseStep::AcceptOnly => after == before.push(Effect::InvitationAccepted(invitation_id))
                && exists|o: Result<(), RepositoryError>|
                #[trigger] self.repositories().1.accept_outcome(invitation_id, o) && Self::settled(o, inv, r),
            ResponseStep::JoinAndAccept => exists|j: Result<(), RepositoryError>|
                #[trigger] self.repositories().4.join_outcome(membership, j) && match j {
                    Err(e) => r == Err::<i32, SocialError>(SocialError::Repository(e)) && after
                        == before.push(Effect::Joined(membership)),
                    Ok(()) => after == before.push(Effect::Joined(membership)).push(
                        Effect::InvitationAccepted(invitation_id),
                    ) && exists|o: Result<(), RepositoryError>|
                        #[trigger] self.repositories().1.accept_outcome(invitation_id, o) && Self::settled(
                            o,
                            inv,
                            r,
                        ),
                },
        }
    }

    /// The answer `r` follows the rule on facts read from the storage.
    pub open spec fn answered(
        &self,
        inv: MissionInvitationEntity,
        invitation_id: i32,
        user_id: i32,
        accept: bool,
        setting: Option<String>,
        facts: ResponseFacts,
        before: Seq<Effect>,
        after: Seq<Effect>,
        r: Result<i32, SocialError>,
    ) -> bool {
        &&& self.facts_read(inv, user_id, facts)
        &&& self.answer_outcome(inv, invitation_id, user_id, accept, setting, facts, before, after, r)
    }

    /// The answer `r` to the invitation `invitation_id`, with the log going
    /// from `before` to `after`: the invitation is read; a failed read is
    /// answered with its error and no change; else the rule is followed on
    /// facts read from the storage (see `answered`).
    pub open spec fn responded(
        &self,
        invitation_id: i32,
        user_id: i32,
        accept: bool,
        setting: Option<String>,
        before: Seq<Effect>,
        after: Seq<Effect>,
        r: Result<i32, SocialError>,
    ) -> bool {
        exists|g: Result<MissionInvitationEntity, RepositoryError>|
            #[trigger] self.repositories().1.get_by_id_outcome(invitation_id, g) && match g {
                Err(e) => r == Err::<i32, SocialError>(SocialError::Repository(e)) && after == before,
                Ok(inv) => exists|facts: ResponseFacts|
                    #[trigger] self.answered(
                        inv,
                        invitation_id,
                        user_id,
                        accept,
                        setting,
                        facts,
                        before,
                        after,
                        r,
                    ),
            }
    }

    /// An answer puts someone in a crew only when the invitee accepts: then
    /// it is the invitee, put into the invitation's mission, which the facts
    /// read show to be joinable and led by someone else, the invitee being
    /// in no crew of it nor in another active mission, and its crew below the
    /// limit. Refusals, rejections and failed reads put nobody in a crew.
    pub proof fn lemma_join_only_when_allowed(
        &self,
        inv: MissionInvitationEntity,
        invitation_id: i32,
        user_id: i32,
        accept: bool,
        setting: Option<String>,
        facts: ResponseFacts,
        before: Seq<Effect>,
        after: Seq<Effect>,
        r: Result<i32, SocialError>,
    )
        requires
            self.answered(inv, invitation_id, user_id, accept, setting, facts, before, after, r),
        ensures
            forall|k: int|
                before.len() <= k < after.len() && #[trigger] after[k] is Joined ==> {
                    &&& k == before.len()
                    &&& after[k] == Effect::Joined(CrewMemberShips { mission_id: inv.mission_id, brawler_id: user_id })
                    &&& inv.invitee_id == user_id && accept
                    &&& crew_limit(setting) matches Some(max) && facts.crew_count matches Some(cc) && cc < max
                    &&& facts.mission matches Some(m) && m.chief_id != user_id && joinable(m.status@)
                    &&& facts.already_member == Some(false)
                    &&& facts.current_mission == Some(None::<i32>)
                },
    {
        let max_crew = limit_for(inv, user_id, accept, setting);
        lemma_invitation_response(user_id, accept, inv.invitee_id, max_crew, facts);
    }

    /// An answer that follows the rule on the invitation read is a response.
    proof fn lemma_responded(
        &self,
        invitation_id: i32,
        user_id: i32,
        accept: bool,
        setting: Option<String>,
        inv: MissionInvitationEntity,
        facts: ResponseFacts,
        before: Seq<Effect>,
        after: Seq<Effect>,
        r: Result<i32, SocialError>,
    )
        requires
            self.repositories().1.get_by_id_outcome(invitation_id, Ok(inv)),
            self.answered(inv, invitation_id, user_id, accept, setting, facts, before, after, r),
        ensures
            self.responded(invitation_id, user_id, accept, setting, before, after, r),
    {
        let g = Ok::<MissionInvitationEntity, RepositoryError>(inv);
        assert(self.repositories().1.get_by_id_outcome(invitation_id, g) && (g matches Ok(i) && self.answered(i, invitation_id, user_id, accept, setting, facts, before, after, r)));
    }

    /// Answers the invitation `invitation_id` for `user_id`, following
    /// `response_step`: the invitation is read, then the reads the rule asks
    /// for are made in turn, and the answer it comes to is carried out (the
    /// invitation rejected, accepted, or the user put in the crew and then the
    /// invitation accepted). `max_crew_setting` is the crew limit setting,
    /// `None` when it is not set (the limit is then 4); it matters only for
    /// an acceptance by the invitee. On success the result is the
    /// invitation's mission.
    pub fn respond_to_invitation(
        &self,
        user_id: i32,
        invitation_id: i32,
        accept: bool,
        max_crew_setting: Option<String>,
        log: &mut EffectLog,
    ) -> (r: Result<i32, SocialError>)
        ensures
            self.responded(invitation_id, user_id, accept, max_crew_setting, old(log)@, final(log)@, r),
            r is Ok ==> exists|facts: ResponseFacts|
                #[trigger] answer_carried_out(user_id, accept, crew_limit(max_crew_setting), facts),
            r matches Err(SocialError::InvalidCrewLimit) ==> accept && crew_limit(max_crew_setting) is None,
            r matches Err(SocialError::ChiefAlreadyInSquad) ==> accept,
            r matches Err(SocialError::NotJoinable { status }) ==> accept && !joinable(status@),
            r matches Err(SocialError::MissionFull { crew_count, max_crew_per_mission }) ==> accept
                && crew_limit(max_crew_setting) == Some(max_crew_per_mission) && crew_count
                >= max_crew_per_mission,
            !accept ==> (r is Ok || r matches Err(SocialError::NotForYou) || r matches Err(
                SocialError::Repository(_),
            )),
    {
        let ghost before = log@;
        let read = self.invitation_repo.get_by_id(invitation_id);
        let ghost g = read;
        assert(self.repositories().1.get_by_id_outcome(invitation_id, g));
        let invitation = match read {
            Ok(i) => i,
            Err(e) => {
                let r: Result<i32, SocialError> = Err(SocialError::Repository(e));
                assert(self.responded(invitation_id, user_id, accept, max_crew_setting, before, log@, r));
                return r;
            },
        };
        let max_crew: Option<i64> = if invitation.invitee_id == user_id && accept {
            match &max_crew_setting {
                Some(s) => parse_i64(s.as_str()),
                None => Some(4),
            }
        } else {
            None
        };
        assert(max_crew == limit_for(invitation, user_id, accept, max_crew_setting));
        let mut facts = ResponseFacts {
            mission: None,
            already_member: None,
            current_mission: None,
            crew_count: None,
        };
        let mut step = next_response_step(user_id, accept, invitation.invitee_id, max_crew, &facts);
        while step_needs_read(&step)
            invariant
                step == response_step(user_id, accept, invitation.invitee_id, max_crew, facts),
                max_crew == limit_for(invitation, user_id, accept, max_crew_setting),
                g == Ok::<MissionInvitationEntity, RepositoryError>(invitation),
                self.repositories().1.get_by_id_outcome(invitation_id, g),
                self.facts_read(invitation, user_id, facts),
                log@ == before,
            decreases missing_facts(facts),
        {
            match step {
                ResponseStep::NeedMission => {
                    match self.mission_repo.get_one(invitation.mission_id) {
                        Ok(m) => facts.mission = Some(m),
                        Err(e) => {
                            let r: Result<i32, SocialError> = Err(SocialError::Repository(e));
                            assert(self.answered(invitation, invitation_id, user_id, accept, max_crew_setting, facts, before, log@, r));
                            proof {
                                self.lemma_responded(invitation_id, user_id, accept, max_crew_setting, invitation, facts, before, log@, r);
                            }
                            return r;
                        },
                    }
                },
                ResponseStep::NeedMembership => {
                    match self.crew_repo.is_member(invitation.mission_id, user_id) {
                        Ok(b) => facts.already_member = Some(b),
                        Err(e) => {
                            let r: Result<i32, SocialError> = Err(SocialError::Repository(e));
                            assert(step is NeedMembership);
                            assert(self.repositories().4.is_member_outcome(invitation.mission_id, user_id, Err(e)));
                            assert(self.answered(invitation, invitation_id, user_id, accept, max_crew_setting, facts, before, log@, r));
                            proof {
                                self.lemma_responded(invitation_id, user_id, accept, max_crew_setting, invitation, facts, before, log@, r);
                            }
                            return r;
                        },
                    }
                },
                ResponseStep::NeedCurrentMission => {
                    match self.crew_repo.get_current_mission(user_id) {
                        Ok(c) => facts.current_mission = Some(c),
                        Err(e) => {
                            let r: Result<i32, SocialError> = Err(SocialError::Repository(e));
                            assert(step is NeedCurrentMission);
                            assert(self.repositories().4.get_current_mission_outcome(user_id, Err(e)));
                            assert(self.answered(invitation, invitation_id, user_id, accept, max_crew_setting, facts, before, log@, r));
                            proof {
                                self.lemma_responded(invitation_id, user_id, accept, max_crew_setting, invitation, facts, before, log@, r);
                            }
                            return r;
                        },
                    }
                },
                _ => {
                    match self.mission_repo.crew_counting(invitation.mission_id) {
                        Ok(c) => facts.crew_count = Some(c),
                        Err(e) => {
                            let r: Result<i32, SocialError> = Err(SocialError::Repository(e));
                            assert(step is NeedCrewCount);
                            assert(self.repositories().3.crew_counting_outcome(invitation.mission_id, Err(e)));
                            assert(self.answered(invitation, invitation_id, user_id, accept, max_crew_setting, facts, before, log@, r));
                            proof {
                                self.lemma_responded(invitation_id, user_id, accept, max_crew_setting, invitation, facts, before, log@, r);
                            }
                            return r;
                        },
                    }
                },
            }
            step = next_response_step(user_id, accept, invitation.invitee_id, max_crew, &facts);
        }
        proof {
            if step is Reject || step is AcceptOnly || step is JoinAndAccept {
                assert(invitation.invitee_id == user_id);
                assert(answer_carried_out(user_id, accept, crew_limit(max_crew_setting), facts));
            }
            if step is InvalidCrewLimit {
                assert(crew_limit(max_crew_setting) is None);
            }
            if step is Full || step is NotJoinable || step is ChiefAlreadyInSquad {
                assert(invitation.invitee_id == user_id && accept);
                assert(max_crew == crew_limit(max_crew_setting));
            }
        }
        let r: Result<i32, SocialError> = match step {
            ResponseStep::NotForYou => Err(SocialError::NotForYou),
            ResponseStep::InvalidCrewLimit => Err(SocialError::InvalidCrewLimit),
            ResponseStep::ChiefAlreadyInSquad => Err(SocialError::ChiefAlreadyInSquad),
            ResponseStep::InAnotherMission { mission_id } => {
                let other = self.mission_repo.get_one(mission_id);
                let ghost og = other;
                let r: Result<i32, SocialError> = match other {
                    Ok(m) => Err(SocialError::AlreadyInAnotherMission { name: m.name, code: m.code }),
                    Err(e) => Err(SocialError::Repository(e)),
                };
                assert(self.repositories().3.get_one_outcome(mission_id, og));
                r
            },
            ResponseStep::NotJoinable => {
                let status = match &facts.mission {
                    Some(m) => m.status.clone(),
                    None => String::new(),
                };
                Err(SocialError::NotJoinable { status })
            },
            ResponseStep::Full => {
                let crew_count = match facts.crew_count {
                    Some(c) => c,
                    None => 0,
                };
                let max_crew_per_mission = match max_crew {
                    Some(m) => m,
                    None => 0,
                };
                Err(SocialError::MissionFull { crew_count, max_crew_per_mission })
            },
            ResponseStep::Reject => {
                let o = self.invitation_repo.reject(invitation_id, log);
                let ghost og = o;
                let r: Result<i32, SocialError> = match o {
                    Ok(()) => Ok(invitation.mission_id),
                    Err(e) => Err(SocialError::Repository(e)),
                };
                assert(self.repositories().1.reject_outcome(invitation_id, og) && Self::settled(og, invitation, r));
                r
            },
            ResponseStep::AcceptOnly => {
                let o = self.invitation_repo.accept(invitation_id, log);
                let ghost og = o;
                let r: Result<i32, SocialError> = match o {
                    Ok(()) => Ok(invitation.mission_id),
                    Err(e) => Err(SocialError::Repository(e)),
                };
                assert(self.repositories().1.accept_outcome(invitation_id, og) && Self::settled(og, invitation, r));
                r
            },
            ResponseStep::JoinAndAccept => {
                let membership = CrewMemberShips { mission_id: invitation.mission_id, brawler_id: user_id };
                let j = self.crew_repo.join(membership, log);
                let ghost jg = j;
                assert(self.repositories().4.join_outcome(
                    (CrewMemberShips { mission_id: invitation.mission_id, brawler_id: user_id }),
                    jg,
                ));
                let r: Result<i32, SocialError> = match j {
                    Ok(()) => {
                        let o = self.invitation_repo.accept(invitation_id, log);
                        let ghost og = o;
                        let r: Result<i32, SocialError> = match o {
                            Ok(()) => Ok(invitation.mission_id),
                            Err(e) => Err(SocialError::Repository(e)),
                        };
                        assert(self.repositories().1.accept_outcome(invitation_id, og) && Self::settled(og, invitation, r));
                        r
                    },
                    Err(e) => Err(SocialError::Repository(e)),
                };
                r
            },
            _ => {
                proof {
                    assert(false);
                }
                Err(SocialError::InvalidCrewLimit)
            },
        };
        assert(self.answered(invitation, invitation_id, user_id, accept, max_crew_setting, facts, before, log@, r));
        proof {
            self.lemma_responded(invitation_id, user_id, accept, max_crew_setting, invitation, facts, before, log@, r);
        }
        r
    }
}

} // verus!
