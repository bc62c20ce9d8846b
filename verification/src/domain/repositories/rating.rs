//! Where mission ratings are stored.
use vstd::prelude::*;
use crate::domain::effects::{Effect, EffectLog};
use crate::domain::entities::ratings::{AddMissionRatingEntity, MissionRatingModel};
use super::repository_error::RepositoryError;

verus! {

/// Storage of mission ratings.
pub trait RatingRepository {
    /// Whether `r` is an outcome that `add_rating` may give for these arguments.
    spec fn add_rating_outcome(&self, rating: AddMissionRatingEntity, r: Result<i32, RepositoryError>) -> bool;

    /// Stores a rating and gives its id.
    fn add_rating(&self, rating: AddMissionRatingEntity, log: &mut EffectLog) -> (r: Result<i32, RepositoryError>)
        ensures
            self.add_rating_outcome(rating, r),
            final(log)@ == old(log)@.push(Effect::RatingAdded(rating)),
    ;

    /// Whether `r` is an outcome that `get_rating_by_mission_and_brawler` may give for these arguments.
    spec fn get_rating_by_mission_and_brawler_outcome(&self, mission_id: i32, brawler_id: i32, r: Result<Option<i32>, RepositoryError>) -> bool;

    /// The rating that the brawler gave the mission, if any.
    fn get_rating_by_mission_and_brawler(&self, mission_id: i32, brawler_id: i32) -> (r: Result<Option<i32>, RepositoryError>)
        ensures
            self.get_rating_by_mission_and_brawler_outcome(mission_id, brawler_id, r),
    ;

    /// Whether `r` is an outcome that `get_ratings_by_mission_id` may give for these arguments.
    spec fn get_ratings_by_mission_id_outcome(&self, mission_id: i32, r: Result<Vec<MissionRatingModel>, RepositoryError>) -> bool;

    /// The mission's ratings, newest first, with their authors.
    fn get_ratings_by_mission_id(&self, mission_id: i32) -> (r: Result<Vec<MissionRatingModel>, RepositoryError>)
        ensures
            self.get_ratings_by_mission_id_outcome(mission_id, r),
    ;
}

} // verus!
