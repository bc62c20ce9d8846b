use std::sync::{Arc, Mutex};

use server::domain::effects::EffectLog;
use server::application::use_cases::social::{
    assemble_invitations, check_can_invite, check_friend_request, friend_of, friendship_status_of,
    next_response_step, InvitationLookup, ResponseFacts, ResponseStep, SocialError, SocialUseCase,
};
use server::domain::entities::brawlers::{BrawlerEntity, NewBrawlerEntity};
use server::domain::entities::friendships::{AddFriendshipEntity, FriendshipEntity};
use server::domain::entities::mission_invitations::{AddMissionInvitationEntity, MissionInvitationEntity};
use server::domain::entities::missions::{CrewMemberShips, MissionEntity};
use server::domain::repositories::brawlers::BrawlerRepository;
use server::domain::repositories::crew_operation::CrewOperationRepository;
use server::domain::repositories::friendships::FriendshipRepository;
use server::domain::repositories::mission_invitations::MissionInvitationRepository;
use server::domain::repositories::mission_viewing::MissionViewingRepository;
use server::domain::repositories::repository_error::RepositoryError;
use server::domain::value_objects::brawler_model::BrawlerModel;
use server::domain::value_objects::mission_filter::MissionFilter;
use server::domain::value_objects::realtime::RealtimeEvent;
use server::infrastructure::realtime::RealtimeHub;

fn friendship(id: i32, user_id: i32, friend_id: i32, status: &str) -> FriendshipEntity {
    FriendshipEntity { id, user_id, friend_id, status: status.to_string(), created_at: 0, updated_at: 0 }
}

fn mission(id: i32, status: &str, chief_id: i32) -> MissionEntity {
    MissionEntity {
        id,
        name: format!("Mission {}", id),
        description: None,
        status: status.to_string(),
        chief_id,
        image_url: None,
        code: format!("C{:04}", id),
        created_at: 0,
        updated_at: 0,
    }
}

fn invitation(id: i32, mission_id: i32, inviter_id: i32, invitee_id: i32) -> MissionInvitationEntity {
    MissionInvitationEntity {
        id,
        mission_id,
        inviter_id,
        invitee_id,
        status: "pending".to_string(),
        created_at: "2024-05-01 10:00:00".to_string(),
    }
}

fn err() -> RepositoryError {
    RepositoryError { message: "not found".to_string() }
}

#[test]
fn friend_requests() {
    assert!(matches!(check_friend_request(3, 3, &None), Err(SocialError::CannotAddSelf)));
    assert!(matches!(
        check_friend_request(3, 4, &Some(friendship(1, 4, 3, "pending"))),
        Err(SocialError::FriendshipAlreadyExists)
    ));
    assert!(check_friend_request(3, 4, &None).is_ok());
}

#[test]
fn only_accepted_friends_can_be_invited() {
    assert!(check_can_invite(&Some(friendship(1, 3, 4, "accepted"))).is_ok());
    assert!(matches!(check_can_invite(&Some(friendship(1, 3, 4, "pending"))), Err(SocialError::NotFriends)));
    assert!(matches!(check_can_invite(&None), Err(SocialError::NotFriends)));
}

#[test]
fn the_friend_is_the_other_side() {
    let f = friendship(1, 3, 4, "accepted");
    assert_eq!(friend_of(&f, 3), 4);
    assert_eq!(friend_of(&f, 4), 3);
}

#[test]
fn friendship_status_report() {
    let none = friendship_status_of(&None);
    assert_eq!((none.friendship_id, none.initiator_id, none.status.as_str()), (None, None, "none"));
    let s = friendship_status_of(&Some(friendship(8, 3, 4, "pending")));
    assert_eq!((s.friendship_id, s.initiator_id, s.status.as_str()), (Some(8), Some(3), "pending"));
}

#[test]
fn invitations_with_missing_parts_are_skipped() {
    let invs = vec![invitation(1, 10, 3, 4), invitation(2, 11, 5, 4), invitation(3, 12, 6, 4)];
    let lookups = vec![
        InvitationLookup { mission_name: Some("A".into()), inviter_name: Some("Ann".into()), invitee_name: Some("Bo".into()) },
        InvitationLookup { mission_name: None, inviter_name: None, invitee_name: None },
        InvitationLookup { mission_name: Some("C".into()), inviter_name: Some("Cy".into()), invitee_name: Some("Bo".into()) },
    ];
    let listed = assemble_invitations(invs, lookups);
    assert_eq!(listed.len(), 2);
    assert_eq!((listed[0].invitation_id, listed[0].mission_name.as_str(), listed[0].inviter_name.as_str()), (1, "A", "Ann"));
    assert_eq!((listed[1].invitation_id, listed[1].mission_id, listed[1].invitee_name.as_str()), (3, 12, "Bo"));
    assert_eq!(listed[1].created_at, "2024-05-01 10:00:00");
}

fn facts(m: Option<MissionEntity>, member: Option<bool>, current: Option<Option<i32>>, count: Option<i64>) -> ResponseFacts {
    ResponseFacts { mission: m, already_member: member, current_mission: current, crew_count: count }
}

#[test]
fn response_steps_follow_the_rule() {
    let empty = facts(None, None, None, None);
    assert!(matches!(next_response_step(1, true, 2, Some(4), &empty), ResponseStep::NotForYou));
    assert!(matches!(next_response_step(1, false, 1, None, &empty), ResponseStep::Reject));
    assert!(matches!(next_response_step(1, true, 1, None, &empty), ResponseStep::InvalidCrewLimit));
    assert!(matches!(next_response_step(1, true, 1, Some(4), &empty), ResponseStep::NeedMission));
    let chief = facts(Some(mission(10, "Open", 1)), None, None, None);
    assert!(matches!(next_response_step(1, true, 1, Some(4), &chief), ResponseStep::ChiefAlreadyInSquad));
    let m = || Some(mission(10, "Open", 9));
    assert!(matches!(next_response_step(1, true, 1, Some(4), &facts(m(), None, None, None)), ResponseStep::NeedMembership));
    assert!(matches!(next_response_step(1, true, 1, Some(4), &facts(m(), Some(true), None, None)), ResponseStep::AcceptOnly));
    assert!(matches!(next_response_step(1, true, 1, Some(4), &facts(m(), Some(false), None, None)), ResponseStep::NeedCurrentMission));
    assert!(matches!(
        next_response_step(1, true, 1, Some(4), &facts(m(), Some(false), Some(Some(77)), None)),
        ResponseStep::InAnotherMission { mission_id: 77 }
    ));
    assert!(matches!(next_response_step(1, true, 1, Some(4), &facts(m(), Some(false), Some(None), None)), ResponseStep::NeedCrewCount));
    assert!(matches!(next_response_step(1, true, 1, Some(4), &facts(m(), Some(false), Some(None), Some(4))), ResponseStep::Full));
    assert!(matches!(next_response_step(1, true, 1, Some(4), &facts(m(), Some(false), Some(None), Some(3))), ResponseStep::JoinAndAccept));
    let done = Some(mission(10, "InProgress", 9));
    assert!(matches!(next_response_step(1, true, 1, Some(4), &facts(done, Some(false), Some(None), Some(0))), ResponseStep::NotJoinable));
    let failed = Some(mission(10, "Failed", 9));
    assert!(matches!(next_response_step(1, true, 1, Some(4), &facts(failed, Some(false), Some(None), Some(0))), ResponseStep::JoinAndAccept));
}

struct World {
    friendships: Mutex<Vec<FriendshipEntity>>,
    invitations: Mutex<Vec<MissionInvitationEntity>>,
    missions: Vec<MissionEntity>,
    crew: Mutex<Vec<(i32, i32)>>,
    brawlers: Vec<(i32, &'static str)>,
}

impl FriendshipRepository for World {
    // Any outcome is possible.
    fn add_outcome(&self, _entity: AddFriendshipEntity, _r: Result<i32, RepositoryError>) -> bool {
        true
    }

    fn accept_outcome(&self, _user_id: i32, _friend_id: i32, _r: Result<(), RepositoryError>) -> bool {
        true
    }

    fn reject_outcome(&self, _user_id: i32, _friend_id: i32, _r: Result<(), RepositoryError>) -> bool {
        true
    }

    fn get_friends_outcome(&self, _user_id: i32, _r: Result<Vec<FriendshipEntity>, RepositoryError>) -> bool {
        true
    }

    fn get_pending_requests_outcome(&self, _user_id: i32, _r: Result<Vec<FriendshipEntity>, RepositoryError>) -> bool {
        true
    }

    fn remove_outcome(&self, _user_id1: i32, _user_id2: i32, _r: Result<(), RepositoryError>) -> bool {
        true
    }

    fn check_friendship_outcome(&self, _user_id1: i32, _user_id2: i32, _r: Result<Option<FriendshipEntity>, RepositoryError>) -> bool {
        true
    }

    fn add(&self, e: AddFriendshipEntity, _log: &mut EffectLog) -> Result<i32, RepositoryError> {
        let mut fs = self.friendships.lock().unwrap();
        let id = fs.len() as i32 + 1;
        fs.push(friendship(id, e.user_id, e.friend_id, &e.status));
        Ok(id)
    }
    fn accept(&self, user_id: i32, friend_id: i32, _log: &mut EffectLog) -> Result<(), RepositoryError> {
        for f in self.friendships.lock().unwrap().iter_mut() {
            if f.user_id == user_id && f.friend_id == friend_id {
                f.status = "accepted".to_string();
            }
        }
        Ok(())
    }
    fn reject(&self, user_id: i32, friend_id: i32, _log: &mut EffectLog) -> Result<(), RepositoryError> {
        self.friendships.lock().unwrap().retain(|f| !(f.user_id == user_id && f.friend_id == friend_id));
        Ok(())
    }
    fn get_friends(&self, user_id: i32) -> Result<Vec<FriendshipEntity>, RepositoryError> {
        Ok(self.friendships.lock().unwrap().iter()
            .filter(|f| (f.user_id == user_id || f.friend_id == user_id) && f.status == "accepted")
            .map(|f| friendship(f.id, f.user_id, f.friend_id, &f.status)).collect())
    }
    fn get_pending_requests(&self, user_id: i32) -> Result<Vec<FriendshipEntity>, RepositoryError> {
        Ok(self.friendships.lock().unwrap().iter()
            .filter(|f| f.friend_id == user_id && f.status == "pending")
            .map(|f| friendship(f.id, f.user_id, f.friend_id, &f.status)).collect())
    }
    fn remove(&self, a: i32, b: i32, _log: &mut EffectLog) -> Result<(), RepositoryError> {
        self.friendships.lock().unwrap().retain(|f| !((f.user_id == a && f.friend_id == b) || (f.user_id == b && f.friend_id == a)));
        Ok(())
    }
    fn check_friendship(&self, a: i32, b: i32) -> Result<Option<FriendshipEntity>, RepositoryError> {
        Ok(self.friendships.lock().unwrap().iter()
            .find(|f| (f.user_id == a && f.friend_id == b) || (f.user_id == b && f.friend_id == a))
            .map(|f| friendship(f.id, f.user_id, f.friend_id, &f.status)))
    }
}

impl MissionInvitationRepository for World {
    // Any outcome is possible.
    fn accept_outcome(&self, _invitation_id: i32, _r: Result<(), RepositoryError>) -> bool {
        true
    }

    fn reject_outcome(&self, _invitation_id: i32, _r: Result<(), RepositoryError>) -> bool {
        true
    }

    fn get_by_id_outcome(&self, _invitation_id: i32, _r: Result<MissionInvitationEntity, RepositoryError>) -> bool {
        true
    }

    fn invite_outcome(&self, _entity: AddMissionInvitationEntity, _r: Result<i32, RepositoryError>) -> bool {
        true
    }

    fn get_received_invitations_outcome(&self, _user_id: i32, _r: Result<Vec<MissionInvitationEntity>, RepositoryError>) -> bool {
        true
    }

    fn get_mission_invitations_outcome(&self, _mission_id: i32, _r: Result<Vec<MissionInvitationEntity>, RepositoryError>) -> bool {
        true
    }

    fn delete_existing_outcome(&self, _mission_id: i32, _invitee_id: i32, _r: Result<(), RepositoryError>) -> bool {
        true
    }

    fn invite(&self, e: AddMissionInvitationEntity, _log: &mut EffectLog) -> Result<i32, RepositoryError> {
        let mut is = self.invitations.lock().unwrap();
        let id = is.len() as i32 + 50;
        is.push(invitation(id, e.mission_id, e.inviter_id, e.invitee_id));
        Ok(id)
    }
    fn accept(&self, id: i32, _log: &mut EffectLog) -> Result<(), RepositoryError> {
        for i in self.invitations.lock().unwrap().iter_mut() {
            if i.id == id {
                i.status = "accepted".to_string();
            }
        }
        Ok(())
    }
    fn reject(&self, id: i32, _log: &mut EffectLog) -> Result<(), RepositoryError> {
        for i in self.invitations.lock().unwrap().iter_mut() {
            if i.id == id {
                i.status = "rejected".to_string();
            }
        }
        Ok(())
    }
    fn get_received_invitations(&self, user_id: i32) -> Result<Vec<MissionInvitationEntity>, RepositoryError> {
        Ok(self.invitations.lock().unwrap().iter().filter(|i| i.invitee_id == user_id && i.status == "pending")
            .map(|i| invitation(i.id, i.mission_id, i.inviter_id, i.invitee_id)).collect())
    }
    fn get_mission_invitations(&self, mission_id: i32) -> Result<Vec<MissionInvitationEntity>, RepositoryError> {
        Ok(self.invitations.lock().unwrap().iter().filter(|i| i.mission_id == mission_id)
            .map(|i| invitation(i.id, i.mission_id, i.inviter_id, i.invitee_id)).collect())
    }
    fn get_by_id(&self, id: i32) -> Result<MissionInvitationEntity, RepositoryError> {
        self.invitations.lock().unwrap().iter().find(|i| i.id == id)
            .map(|i| MissionInvitationEntity { status: i.status.clone(), ..invitation(i.id, i.mission_id, i.inviter_id, i.invitee_id) })
            .ok_or_else(err)
    }
    fn delete_existing(&self, mission_id: i32, invitee_id: i32, _log: &mut EffectLog) -> Result<(), RepositoryError> {
        self.invitations.lock().unwrap().retain(|i| !(i.mission_id == mission_id && i.invitee_id == invitee_id));
        Ok(())
    }
}

impl BrawlerRepository for World {
    // Any outcome is possible.
    fn register_outcome(&self, _brawler: NewBrawlerEntity, _r: Result<i32, RepositoryError>) -> bool {
        true
    }

    fn update_avatar_outcome(&self, _brawler_id: i32, _avatar_url: String, _avatar_public_id: String, _r: Result<(), RepositoryError>) -> bool {
        true
    }

    fn search_outcome(&self, _query: Option<String>, _page: i64, _page_size: i64, _r: Result<(Vec<BrawlerEntity>, i64), RepositoryError>) -> bool {
        true
    }

    fn update_display_name_outcome(&self, _brawler_id: i32, _display_name: String, _r: Result<(), RepositoryError>) -> bool {
        true
    }

    fn get_stats_outcome(&self, _brawler_id: i32, _r: Result<(i64, i64), RepositoryError>) -> bool {
        true
    }

    fn find_by_id_outcome(&self, _id: i32, _r: Result<BrawlerEntity, RepositoryError>) -> bool {
        true
    }

    fn find_by_username_outcome(&self, _username: &str, _r: Result<BrawlerEntity, RepositoryError>) -> bool {
        true
    }

    fn find_by_id(&self, id: i32) -> Result<BrawlerEntity, RepositoryError> {
        self.brawlers.iter().find(|(b, _)| *b == id).map(|(b, n)| BrawlerEntity {
            id: *b,
            username: n.to_lowercase(),
            password: "pw".to_string(),
            display_name: n.to_string(),
            avatar_url: None,
            avatar_public_id: None,
            cover_url: None,
            cover_public_id: None,
            bio: None,
        }).ok_or_else(err)
    }
    fn find_by_username(&self, _u: &str) -> Result<BrawlerEntity, RepositoryError> { Err(err()) }
    fn register(&self, _b: NewBrawlerEntity, _log: &mut EffectLog) -> Result<i32, RepositoryError> { Err(err()) }
    fn update_avatar(&self, _i: i32, _a: String, _p: String, _log: &mut EffectLog) -> Result<(), RepositoryError> { Ok(()) }
    fn update_cover(&self, _i: i32, _a: String, _p: String, _log: &mut EffectLog) -> Result<(), RepositoryError> { Ok(()) }
    fn search(&self, _q: Option<String>, _p: i64, _s: i64) -> Result<(Vec<BrawlerEntity>, i64), RepositoryError> { Ok((vec![], 0)) }
    fn update_display_name(&self, _i: i32, _d: String, _log: &mut EffectLog) -> Result<(), RepositoryError> { Ok(()) }
    fn update_bio(&self, _i: i32, _b: String, _log: &mut EffectLog) -> Result<(), RepositoryError> { Ok(()) }
    fn get_stats(&self, _i: i32) -> Result<(i64, i64), RepositoryError> { Ok((0, 0)) }
}

impl MissionViewingRepository for World {
    // Any outcome is possible.
    fn crew_counting_outcome(&self, _mission_id: i32, _r: Result<i64, RepositoryError>) -> bool {
        true
    }

    fn get_one_outcome(&self, _mission_id: i32, _r: Result<MissionEntity, RepositoryError>) -> bool {
        true
    }

    fn crew_counting(&self, mission_id: i32) -> Result<i64, RepositoryError> {
        Ok(self.crew.lock().unwrap().iter().filter(|(m, _)| *m == mission_id).count() as i64)
    }
    fn get_one(&self, id: i32) -> Result<MissionEntity, RepositoryError> {
        self.missions.iter().find(|m| m.id == id).map(|m| mission(m.id, &m.status, m.chief_id)).ok_or_else(err)
    }
    fn get_all(&self, _f: &MissionFilter) -> Result<Vec<MissionEntity>, RepositoryError> { Ok(vec![]) }
    fn get_mission_count(&self, _m: i32) -> Result<Vec<BrawlerModel>, RepositoryError> { Ok(vec![]) }
    fn get_chief_name(&self, _c: i32) -> Result<String, RepositoryError> { Ok(String::new()) }
}

impl CrewOperationRepository for World {
    // Any outcome is possible.
    fn join_outcome(&self, _crew_member_ships: CrewMemberShips, _r: Result<(), RepositoryError>) -> bool {
        true
    }

    fn get_current_mission_outcome(&self, _brawler_id: i32, _r: Result<Option<i32>, RepositoryError>) -> bool {
        true
    }

    fn is_member_outcome(&self, _mission_id: i32, _brawler_id: i32, _r: Result<bool, RepositoryError>) -> bool {
        true
    }

    fn join(&self, c: CrewMemberShips, _log: &mut EffectLog) -> Result<(), RepositoryError> {
        self.crew.lock().unwrap().push((c.mission_id, c.brawler_id));
        Ok(())
    }
    fn leave(&self, c: CrewMemberShips, _log: &mut EffectLog) -> Result<(), RepositoryError> {
        self.crew.lock().unwrap().retain(|x| *x != (c.mission_id, c.brawler_id));
        Ok(())
    }
    fn get_current_mission(&self, brawler_id: i32) -> Result<Option<i32>, RepositoryError> {
        let crew = self.crew.lock().unwrap();
        Ok(crew.iter().find(|(m, b)| *b == brawler_id
            && self.missions.iter().any(|x| x.id == *m && (x.status == "Open" || x.status == "InProgress")))
            .map(|(m, _)| *m))
    }
    fn is_member(&self, mission_id: i32, brawler_id: i32) -> Result<bool, RepositoryError> {
        Ok(self.crew.lock().unwrap().contains(&(mission_id, brawler_id)))
    }
}

type Social = SocialUseCase<World, World, World, World, World>;

fn world() -> (Arc<World>, Social, Arc<RealtimeHub>) {
    let w = Arc::new(World {
        friendships: Mutex::new(vec![friendship(1, 1, 2, "accepted"), friendship(2, 3, 1, "pending")]),
        invitations: Mutex::new(vec![]),
        missions: vec![mission(10, "Open", 2), mission(11, "Open", 5), mission(12, "Completed", 5)],
        crew: Mutex::new(vec![(10, 2), (11, 5), (11, 6)]),
        brawlers: vec![(1, "Ann"), (2, "Bo"), (3, "Cy"), (5, "Dee"), (6, "Eve")],
    });
    let hub = Arc::new(RealtimeHub::new());
    let uc = SocialUseCase::new(Arc::clone(&w), Arc::clone(&w), Arc::clone(&w), Arc::clone(&w), Arc::clone(&w), Arc::clone(&hub));
    (w, uc, hub)
}

#[test]
fn adding_friends_through_the_use_case() {
    let (w, uc, hub) = world();
    let mut rx = hub.tx.subscribe();
    assert!(matches!(uc.add_friend(1, 1, &mut EffectLog::new()), Err(SocialError::CannotAddSelf)));
    assert!(matches!(uc.add_friend(1, 2, &mut EffectLog::new()), Err(SocialError::FriendshipAlreadyExists)));
    let id = uc.add_friend(1, 5, &mut EffectLog::new()).ok().unwrap();
    assert_eq!(id, 3);
    assert_eq!(w.friendships.lock().unwrap()[2].status, "pending");
    assert!(matches!(rx.try_recv().unwrap(), RealtimeEvent::FriendRequest { from_id: 1, to_id: 5 }));
}

#[test]
fn listing_friends_and_requests() {
    let (_w, uc, _hub) = world();
    let friends = uc.get_friends(2).ok().unwrap();
    assert_eq!(friends.len(), 1);
    assert_eq!((friends[0].friend_id, friends[0].display_name.as_str(), friends[0].status.as_str()), (1, "Ann", "accepted"));
    let requests = uc.get_pending_requests(1).ok().unwrap();
    assert_eq!(requests.len(), 1);
    assert_eq!((requests[0].friend_id, requests[0].display_name.as_str()), (3, "Cy"));
}

#[test]
fn inviting_and_answering() {
    let (w, uc, _hub) = world();
    assert!(matches!(uc.invite_to_mission(1, 3, 10, &mut EffectLog::new()), Err(SocialError::NotFriends)));
    let inv = uc.invite_to_mission(2, 1, 10, &mut EffectLog::new()).ok().unwrap();
    assert!(matches!(uc.respond_to_invitation(3, inv, true, None, &mut EffectLog::new()), Err(SocialError::NotForYou)));
    assert!(matches!(uc.respond_to_invitation(1, inv, true, Some("x".to_string()), &mut EffectLog::new()), Err(SocialError::InvalidCrewLimit)));
    let mine = uc.get_my_invitations(1).ok().unwrap();
    assert_eq!(mine.len(), 1);
    assert_eq!((mine[0].mission_name.as_str(), mine[0].inviter_name.as_str(), mine[0].invitee_name.as_str()), ("Mission 10", "Bo", "Ann"));
    assert_eq!(uc.respond_to_invitation(1, inv, true, None, &mut EffectLog::new()).ok(), Some(10));
    assert!(w.crew.lock().unwrap().contains(&(10, 1)));
    assert_eq!(w.invitations.lock().unwrap()[0].status, "accepted");
}

#[test]
fn answering_refusals() {
    let (w, uc, _hub) = world();
    w.invitations.lock().unwrap().push(invitation(60, 11, 5, 1));
    w.invitations.lock().unwrap().push(invitation(61, 12, 5, 1));
    w.invitations.lock().unwrap().push(invitation(62, 10, 1, 2));
    assert!(matches!(uc.respond_to_invitation(1, 60, true, Some("2".to_string()), &mut EffectLog::new()), Err(SocialError::MissionFull { crew_count: 2, max_crew_per_mission: 2 })));
    assert!(matches!(uc.respond_to_invitation(1, 61, true, None, &mut EffectLog::new()), Err(SocialError::NotJoinable { .. })));
    assert!(matches!(uc.respond_to_invitation(2, 62, true, None, &mut EffectLog::new()), Err(SocialError::ChiefAlreadyInSquad)));
    w.crew.lock().unwrap().push((10, 1));
    match uc.respond_to_invitation(1, 60, true, None, &mut EffectLog::new()) {
        Err(SocialError::AlreadyInAnotherMission { name, code }) => {
            assert_eq!(name, "Mission 10");
            assert_eq!(code, "C0010");
        }
        _ => panic!("expected AlreadyInAnotherMission"),
    }
    assert_eq!(uc.respond_to_invitation(1, 61, false, None, &mut EffectLog::new()).ok(), Some(12));
    assert_eq!(w.invitations.lock().unwrap()[1].status, "rejected");
    assert_eq!(w.crew.lock().unwrap().len(), 4);
}
