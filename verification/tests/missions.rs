use std::sync::{Arc, Mutex};

use server::domain::effects::EffectLog;
use server::application::use_cases::mission_management::{
    check_mission_name, check_removal, code_from_uuid_text, normalize_edit,
    MissionManagementError, MissionManagementUseCase,
};
use server::application::use_cases::mission_operation::{
    check_finish, check_start, MissionOperationError, MissionOperationUseCase,
};
use server::domain::entities::missions::{AddMissionEntity, CrewMemberShips, EditMissionEntity, MissionEntity};
use server::application::use_cases::rating::{RatingError, RatingUseCase};
use server::domain::entities::ratings::{AddMissionRatingEntity, MissionRatingModel};
use server::domain::repositories::crew_operation::CrewOperationRepository;
use server::domain::repositories::rating::RatingRepository;
use server::domain::repositories::mission_management::MissionManagementRepository;
use server::domain::repositories::mission_operation::MissionOperationRepository;
use server::domain::repositories::mission_viewing::MissionViewingRepository;
use server::domain::repositories::repository_error::RepositoryError;
use server::domain::value_objects::brawler_model::BrawlerModel;
use server::domain::value_objects::mission_filter::MissionFilter;
use server::domain::value_objects::mission_model::{AddMissionModel, EditMissionModel};
use server::domain::value_objects::mission_statuses::MissionStatuses;
use server::infrastructure::realtime::RealtimeHub;

fn mission(id: i32, status: &str, chief_id: i32) -> MissionEntity {
    MissionEntity {
        id,
        name: format!("Mission {}", id),
        description: None,
        status: status.to_string(),
        chief_id,
        image_url: None,
        code: "AB12C".to_string(),
        created_at: 0,
        updated_at: 0,
    }
}

fn not_found() -> RepositoryError {
    RepositoryError { message: "not found".to_string() }
}

struct Store {
    missions: Mutex<Vec<MissionEntity>>,
    crew: Mutex<Vec<(i32, i32)>>,
    added: Mutex<Vec<AddMissionEntity>>,
    edits: Mutex<Vec<(i32, EditMissionEntity)>>,
    removed: Mutex<Vec<(i32, i32)>>,
    progressed: Mutex<Vec<(i32, i32, &'static str)>>,
}

impl Store {
    fn new(missions: Vec<MissionEntity>, crew: Vec<(i32, i32)>) -> Self {
        Store {
            missions: Mutex::new(missions),
            crew: Mutex::new(crew),
            added: Mutex::new(vec![]),
            edits: Mutex::new(vec![]),
            removed: Mutex::new(vec![]),
            progressed: Mutex::new(vec![]),
        }
    }
}

impl MissionViewingRepository for Store {
    // Any outcome is possible.
    fn crew_counting_outcome(&self, _mission_id: i32, _r: Result<i64, RepositoryError>) -> bool {
        true
    }

    fn get_one_outcome(&self, _mission_id: i32, _r: Result<MissionEntity, RepositoryError>) -> bool {
        true
    }

    fn crew_counting(&self, mission_id: i32) -> Result<i64, RepositoryError> {
        Ok(self.crew.lock().unwrap().iter().filter(|(m, _)| *m == mission_id).count() as i64)
    }
    fn get_one(&self, mission_id: i32) -> Result<MissionEntity, RepositoryError> {
        let ms = self.missions.lock().unwrap();
        match ms.iter().find(|m| m.id == mission_id) {
            Some(m) => Ok(MissionEntity {
                id: m.id,
                name: m.name.clone(),
                description: m.description.clone(),
                status: m.status.clone(),
                chief_id: m.chief_id,
                image_url: m.image_url.clone(),
                code: m.code.clone(),
                created_at: m.created_at,
                updated_at: m.updated_at,
            }),
            None => Err(not_found()),
        }
    }
    fn get_all(&self, _f: &MissionFilter) -> Result<Vec<MissionEntity>, RepositoryError> {
        Ok(vec![])
    }
    fn get_mission_count(&self, _mission_id: i32) -> Result<Vec<BrawlerModel>, RepositoryError> {
        Ok(vec![])
    }
    fn get_chief_name(&self, _chief_id: i32) -> Result<String, RepositoryError> {
        Ok("chief".to_string())
    }
}

impl CrewOperationRepository for Store {
    // Any outcome is possible.
    fn join_outcome(&self, _crew_member_ships: CrewMemberShips, _r: Result<(), RepositoryError>) -> bool {
        true
    }

    fn get_current_mission_outcome(&self, _brawler_id: i32, _r: Result<Option<i32>, RepositoryError>) -> bool {
        true
    }

    fn is_member_outcome(&self, _mission_id: i32, _brawler_id: i32, _r: Result<bool, RepositoryError>) -> bool {
        true
    }

    fn join(&self, c: CrewMemberShips, _log: &mut EffectLog) -> Result<(), RepositoryError> {
        self.crew.lock().unwrap().push((c.mission_id, c.brawler_id));
        Ok(())
    }
    fn leave(&self, c: CrewMemberShips, _log: &mut EffectLog) -> Result<(), RepositoryError> {
        self.crew.lock().unwrap().retain(|x| *x != (c.mission_id, c.brawler_id));
        Ok(())
    }
    fn get_current_mission(&self, brawler_id: i32) -> Result<Option<i32>, RepositoryError> {
        let ms = self.missions.lock().unwrap();
        let active = |id: i32| ms.iter().any(|m| m.id == id && (m.status == "Open" || m.status == "InProgress"));
        let crew = self.crew.lock().unwrap();
        Ok(crew.iter().find(|(m, b)| *b == brawler_id && active(*m)).map(|(m, _)| *m))
    }
    fn is_member(&self, mission_id: i32, brawler_id: i32) -> Result<bool, RepositoryError> {
        Ok(self.crew.lock().unwrap().contains(&(mission_id, brawler_id)))
    }
}

impl MissionManagementRepository for Store {
    // Any outcome is possible.
    fn add_outcome(&self, _add_mission_entity: AddMissionEntity, _r: Result<i32, RepositoryError>) -> bool {
        true
    }

    fn edit_outcome(&self, _mission_id: i32, _edit_mission_entity: EditMissionEntity, _r: Result<i32, RepositoryError>) -> bool {
        true
    }

    fn remove_outcome(&self, _mission_id: i32, _chief_id: i32, _r: Result<(), RepositoryError>) -> bool {
        true
    }

    fn add(&self, e: AddMissionEntity, _log: &mut EffectLog) -> Result<i32, RepositoryError> {
        let mut added = self.added.lock().unwrap();
        added.push(e);
        Ok(100 + added.len() as i32)
    }
    fn edit(&self, mission_id: i32, e: EditMissionEntity, _log: &mut EffectLog) -> Result<i32, RepositoryError> {
        self.edits.lock().unwrap().push((mission_id, e));
        Ok(mission_id)
    }
    fn remove(&self, mission_id: i32, chief_id: i32, _log: &mut EffectLog) -> Result<(), RepositoryError> {
        self.removed.lock().unwrap().push((mission_id, chief_id));
        Ok(())
    }
}

impl MissionOperationRepository for Store {
    // Any outcome is possible.
    fn to_progress_outcome(&self, _mission_id: i32, _chief_id: i32, _r: Result<i32, RepositoryError>) -> bool {
        true
    }

    fn to_completed_outcome(&self, _mission_id: i32, _chief_id: i32, _r: Result<i32, RepositoryError>) -> bool {
        true
    }

    fn to_failed_outcome(&self, _mission_id: i32, _chief_id: i32, _r: Result<i32, RepositoryError>) -> bool {
        true
    }

    fn to_progress(&self, mission_id: i32, chief_id: i32, _log: &mut EffectLog) -> Result<i32, RepositoryError> {
        self.progressed.lock().unwrap().push((mission_id, chief_id, "InProgress"));
        Ok(mission_id)
    }
    fn to_completed(&self, mission_id: i32, chief_id: i32, _log: &mut EffectLog) -> Result<i32, RepositoryError> {
        self.progressed.lock().unwrap().push((mission_id, chief_id, "Completed"));
        Ok(mission_id)
    }
    fn to_failed(&self, mission_id: i32, chief_id: i32, _log: &mut EffectLog) -> Result<i32, RepositoryError> {
        self.progressed.lock().unwrap().push((mission_id, chief_id, "Failed"));
        Ok(mission_id)
    }
}

#[test]
fn status_texts() {
    assert_eq!(MissionStatuses::Open.to_text(), "Open");
    assert_eq!(MissionStatuses::InProgress.to_text(), "InProgress");
    assert_eq!(MissionStatuses::Completed.to_text(), "Completed");
    assert_eq!(MissionStatuses::Failed.to_text(), "Failed");
    assert!(MissionStatuses::Open.matches("Open"));
    assert!(!MissionStatuses::Open.matches("open"));
}

#[test]
fn start_checks_come_in_order() {
    let m = mission(1, "Open", 7);
    assert!(check_start(&m, 2, 5, 7).is_ok());
    match check_start(&mission(1, "Completed", 7), 0, 5, 8) {
        Err(MissionOperationError::NotOpen { current_status }) => assert_eq!(current_status, "Completed"),
        _ => panic!("expected NotOpen"),
    }
    assert!(matches!(check_start(&m, 0, 5, 8), Err(MissionOperationError::NoCrew)));
    match check_start(&m, 5, 5, 8) {
        Err(MissionOperationError::CrewLimitReached { max_crew_per_mission }) => assert_eq!(max_crew_per_mission, 5),
        _ => panic!("expected CrewLimitReached"),
    }
    assert!(matches!(check_start(&m, 4, 5, 8), Err(MissionOperationError::NotChief)));
}

#[test]
fn finish_needs_in_progress_and_chief() {
    assert!(check_finish(&mission(1, "InProgress", 7), 7).is_ok());
    assert!(matches!(check_finish(&mission(1, "InProgress", 7), 8), Err(MissionOperationError::NotChief)));
    for s in ["Open", "Completed", "Failed"] {
        match check_finish(&mission(1, s, 7), 7) {
            Err(MissionOperationError::NotInProgress { current_status }) => assert_eq!(current_status, s),
            _ => panic!("expected NotInProgress"),
        }
    }
}

#[test]
fn terminal_missions_cannot_change() {
    for s in ["Completed", "Failed"] {
        assert!(check_start(&mission(1, s, 7), 1, 5, 7).is_err());
        assert!(check_finish(&mission(1, s, 7), 7).is_err());
    }
}

#[test]
fn mission_names() {
    assert!(check_mission_name("Raid"));
    assert!(check_mission_name("  abc  "));
    assert!(!check_mission_name("  ab  "));
    assert!(!check_mission_name("    "));
    assert!(check_mission_name("é€")); // 5 bytes in UTF-8
    assert!(!check_mission_name("é")); // 2 bytes
}

#[test]
fn join_codes_from_uuid_text() {
    let code = code_from_uuid_text("3fa85f64-5717-4562-b3fc-2c963f66afa6");
    assert_eq!(code, "3FA85");
    let code = code_from_uuid_text("abcdef01-0000-4000-8000-000000000000");
    assert_eq!(code, "ABCDE");
}

#[test]
fn edit_requests_are_normalized() {
    let m = normalize_edit(EditMissionModel {
        name: Some("  New name ".to_string()),
        description: Some("   ".to_string()),
        max_participants: Some(4),
    })
    .ok()
    .unwrap();
    assert_eq!(m.name, Some("New name".to_string()));
    assert_eq!(m.description, None);
    assert_eq!(m.max_participants, Some(4));
    let blank = normalize_edit(EditMissionModel { name: Some(" ".to_string()), description: None, max_participants: None })
        .ok()
        .unwrap();
    assert_eq!(blank.name, None);
    assert!(matches!(
        normalize_edit(EditMissionModel { name: Some(" ab ".to_string()), description: None, max_participants: None }),
        Err(MissionManagementError::NameTooShort)
    ));
}

#[test]
fn removal_only_without_other_crew() {
    assert!(check_removal(0).is_ok());
    assert!(check_removal(1).is_ok());
    assert!(matches!(check_removal(2), Err(MissionManagementError::HasOtherCrew)));
}

fn management(store: &Arc<Store>) -> MissionManagementUseCase<Store, Store, Store> {
    MissionManagementUseCase::new(Arc::clone(store), Arc::clone(store), Arc::clone(store))
}

#[test]
fn adding_a_mission_stores_it_open_and_joins_the_chief() {
    let store = Arc::new(Store::new(vec![], vec![]));
    let uc = management(&store);
    let id = uc
        .add(9, AddMissionModel {
            name: "  Night raid".to_string(),
            description: Some("  bring snacks ".to_string()),
            image_url: None,
            max_participants: 4,
        }, &mut EffectLog::new())
        .ok()
        .unwrap();
    assert_eq!(id, 101);
    let added = store.added.lock().unwrap();
    assert_eq!(added[0].status, "Open");
    assert_eq!(added[0].chief_id, 9);
    assert_eq!(added[0].name, "  Night raid");
    assert_eq!(added[0].description, Some("bring snacks".to_string()));
    assert_eq!(added[0].code.len(), 5);
    assert!(added[0].code.chars().all(|c| c.is_ascii_digit() || ('A'..='F').contains(&c)));
    assert!(store.crew.lock().unwrap().contains(&(101, 9)));
}

#[test]
fn adding_is_refused_for_short_names_and_busy_chiefs() {
    let store = Arc::new(Store::new(vec![mission(5, "Open", 3)], vec![(5, 9)]));
    let uc = management(&store);
    let short = uc.add(9, AddMissionModel { name: " a ".to_string(), description: None, image_url: None, max_participants: 4 }, &mut EffectLog::new());
    assert!(matches!(short, Err(MissionManagementError::NameTooShort)));
    match uc.add(9, AddMissionModel { name: "Valid".to_string(), description: None, image_url: None, max_participants: 4 }, &mut EffectLog::new()) {
        Err(MissionManagementError::AlreadyInActiveMission { name, code }) => {
            assert_eq!(name, "Mission 5");
            assert_eq!(code, "AB12C");
        }
        _ => panic!("expected AlreadyInActiveMission"),
    }
    assert!(store.added.lock().unwrap().is_empty());
}

#[test]
fn removing_a_mission_with_crew_is_refused() {
    let store = Arc::new(Store::new(vec![mission(5, "Open", 3)], vec![(5, 3), (5, 4)]));
    let uc = management(&store);
    assert!(matches!(uc.remove(5, 3, &mut EffectLog::new()), Err(MissionManagementError::HasOtherCrew)));
    store.crew.lock().unwrap().retain(|x| *x != (5, 4));
    assert!(uc.remove(5, 3, &mut EffectLog::new()).is_ok());
    assert_eq!(store.removed.lock().unwrap()[0], (5, 3));
}

#[test]
fn starting_and_finishing_through_the_use_case() {
    let store = Arc::new(Store::new(vec![mission(5, "Open", 3), mission(6, "InProgress", 3)], vec![(5, 3), (5, 4)]));
    let hub = Arc::new(RealtimeHub::new());
    let mut rx = hub.tx.subscribe();
    let uc = MissionOperationUseCase::new(Arc::clone(&store), Arc::clone(&store), hub);
    assert!(matches!(uc.in_progress(5, 3, "five", &mut EffectLog::new()), Err(MissionOperationError::InvalidCrewLimit)));
    assert!(matches!(uc.in_progress(5, 3, "2", &mut EffectLog::new()), Err(MissionOperationError::CrewLimitReached { max_crew_per_mission: 2 })));
    assert!(matches!(uc.in_progress(5, 4, "5", &mut EffectLog::new()), Err(MissionOperationError::NotChief)));
    assert_eq!(uc.in_progress(5, 3, "5", &mut EffectLog::new()).ok(), Some(5));
    assert_eq!(uc.to_completed(6, 3, &mut EffectLog::new()).ok(), Some(6));
    assert!(matches!(uc.to_failed(5, 3, &mut EffectLog::new()), Err(MissionOperationError::NotInProgress { .. })));
    assert_eq!(store.progressed.lock().unwrap().len(), 2);
    let first = rx.try_recv().unwrap();
    match first {
        server::domain::value_objects::realtime::RealtimeEvent::MissionStatusChanged { mission_id, status, brawler_id } => {
            assert_eq!((mission_id, status.as_str(), brawler_id), (5, "InProgress", 3));
        }
        _ => panic!("unexpected event"),
    }
}

struct Ratings {
    stored: Mutex<Vec<AddMissionRatingEntity>>,
}

impl RatingRepository for Ratings {
    // Any outcome is possible.
    fn add_rating_outcome(&self, _rating: AddMissionRatingEntity, _r: Result<i32, RepositoryError>) -> bool {
        true
    }

    fn get_rating_by_mission_and_brawler_outcome(&self, _mission_id: i32, _brawler_id: i32, _r: Result<Option<i32>, RepositoryError>) -> bool {
        true
    }

    fn get_ratings_by_mission_id_outcome(&self, _mission_id: i32, _r: Result<Vec<MissionRatingModel>, RepositoryError>) -> bool {
        true
    }

    fn add_rating(&self, rating: AddMissionRatingEntity, _log: &mut EffectLog) -> Result<i32, RepositoryError> {
        let mut stored = self.stored.lock().unwrap();
        stored.push(rating);
        Ok(stored.len() as i32)
    }
    fn get_rating_by_mission_and_brawler(&self, mission_id: i32, brawler_id: i32) -> Result<Option<i32>, RepositoryError> {
        let stored = self.stored.lock().unwrap();
        Ok(stored.iter().find(|r| r.mission_id == mission_id && r.brawler_id == brawler_id).map(|r| r.rating))
    }
    fn get_ratings_by_mission_id(&self, _mission_id: i32) -> Result<Vec<MissionRatingModel>, RepositoryError> {
        Ok(vec![])
    }
}

#[test]
fn rating_through_the_use_case() {
    let store = Arc::new(Store::new(vec![mission(5, "InProgress", 3), mission(6, "Open", 8)], vec![(5, 4)]));
    let ratings = Arc::new(Ratings { stored: Mutex::new(vec![]) });
    let uc = RatingUseCase::new(Arc::clone(&ratings), Arc::clone(&store));
    assert!(matches!(uc.add_rating(5, 4, 6, None, &mut EffectLog::new()), Err(RatingError::OutOfRange)));
    assert!(matches!(uc.add_rating(6, 4, 3, None, &mut EffectLog::new()), Err(RatingError::NotAMember)));
    assert!(ratings.stored.lock().unwrap().is_empty());
    assert_eq!(uc.add_rating(5, 4, 4, Some("fun".to_string()), &mut EffectLog::new()).ok(), Some(1));
    {
        let stored = ratings.stored.lock().unwrap();
        assert_eq!((stored[0].mission_id, stored[0].brawler_id, stored[0].rating), (5, 4, 4));
        assert_eq!(stored[0].comment, Some("fun".to_string()));
    }
    assert!(matches!(uc.add_rating(5, 4, 5, None, &mut EffectLog::new()), Err(RatingError::AlreadyRated)));
    assert_eq!(ratings.stored.lock().unwrap().len(), 1);
}
