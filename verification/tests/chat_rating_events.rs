use server::application::use_cases::chat::check_crew_chat_access;
use server::application::use_cases::mission_chat::check_mission_chat_access;
use server::application::use_cases::rating::{check_rating_eligibility, check_rating_range, RatingError};
use server::domain::value_objects::realtime::RealtimeEvent;

#[test]
fn ratings_are_one_to_five_stars() {
    for r in 1..=5 {
        assert!(check_rating_range(r).is_ok());
    }
    for r in [0, 6, -1, i32::MIN, i32::MAX] {
        assert!(matches!(check_rating_range(r), Err(RatingError::OutOfRange)));
    }
}

#[test]
fn only_members_rate_once() {
    assert!(check_rating_eligibility(4, Some(4), None).is_ok());
    assert!(matches!(check_rating_eligibility(4, Some(5), None), Err(RatingError::NotAMember)));
    assert!(matches!(check_rating_eligibility(4, None, Some(3)), Err(RatingError::NotAMember)));
    assert!(matches!(check_rating_eligibility(4, Some(4), Some(3)), Err(RatingError::AlreadyRated)));
}

#[test]
fn chat_access() {
    assert!(check_crew_chat_access(Some(3), 3));
    assert!(!check_crew_chat_access(Some(2), 3));
    assert!(!check_crew_chat_access(None, 3));
    assert!(check_mission_chat_access(true, 9, 1));
    assert!(check_mission_chat_access(false, 1, 1));
    assert!(!check_mission_chat_access(false, 9, 1));
}

#[test]
fn personal_events_reach_only_their_addressee() {
    let e = RealtimeEvent::FriendRequest { from_id: 1, to_id: 2 };
    assert!(e.is_relevant_to(2));
    assert!(!e.is_relevant_to(1));
    let e = RealtimeEvent::MissionInvitation { mission_id: 5, inviter_id: 1, invitee_id: 3 };
    assert!(e.is_relevant_to(3) && !e.is_relevant_to(1));
    let e = RealtimeEvent::FriendAccepted { from_id: 2, to_id: 1 };
    assert!(e.is_relevant_to(1) && !e.is_relevant_to(2));
    let e = RealtimeEvent::MissionInvitationAccepted { mission_id: 5, user_id: 3, inviter_id: 1 };
    assert!(e.is_relevant_to(1) && !e.is_relevant_to(3));
}

#[test]
fn mission_events_reach_everyone() {
    let events = vec![
        RealtimeEvent::MissionStatusChanged { mission_id: 1, status: "Open".into(), brawler_id: 2 },
        RealtimeEvent::MissionDeleted { mission_id: 1 },
        RealtimeEvent::MissionCreated { mission_id: 1, chief_id: 2 },
        RealtimeEvent::MissionUpdated { mission_id: 1, chief_id: 2 },
        RealtimeEvent::MissionJoined { mission_id: 1, brawler_id: 2 },
        RealtimeEvent::MissionLeft { mission_id: 1, brawler_id: 2 },
    ];
    for e in events {
        assert!(e.is_relevant_to(0) && e.is_relevant_to(77));
    }
}
