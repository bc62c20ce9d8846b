use server::application::use_cases::rating::rating_total;
use server::domain::entities::ratings::MissionRatingModel;
use server::domain::repositories::brawlers::search_pattern;
use server::domain::repositories::crew_operation::current_mission_from;

fn rating(id: i32, stars: i32) -> MissionRatingModel {
    MissionRatingModel {
        id,
        mission_id: 1,
        brawler_id: id,
        brawler_name: format!("b{}", id),
        brawler_avatar: None,
        rating: stars,
        comment: None,
        created_at: 0,
    }
}

#[test]
fn the_search_pattern_wraps_the_query_in_wildcards() {
    assert_eq!(search_pattern(Some("ann".to_string())), "%ann%");
    assert_eq!(search_pattern(None), "%%");
    assert_eq!(search_pattern(Some(String::new())), "%%");
}

#[test]
fn the_crew_mission_comes_before_the_led_one() {
    assert_eq!(current_mission_from(Some(3), Some(9)), Some(3));
    assert_eq!(current_mission_from(None, Some(9)), Some(9));
    assert_eq!(current_mission_from(Some(3), None), Some(3));
    assert_eq!(current_mission_from(None, None), None);
}

#[test]
fn rating_totals_add_the_stars() {
    assert_eq!(rating_total(&vec![]), 0);
    assert_eq!(rating_total(&vec![rating(1, 5), rating(2, 3), rating(3, 4)]), 12);
    let many: Vec<MissionRatingModel> = (0..1000).map(|i| rating(i, i32::MAX)).collect();
    assert_eq!(rating_total(&many), 1000 * i32::MAX as i128);
}
