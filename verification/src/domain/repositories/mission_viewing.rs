//! Where missions are read from.
use vstd::prelude::*;
use crate::domain::entities::missions::MissionEntity;
use crate::domain::value_objects::{brawler_model::BrawlerModel, mission_filter::MissionFilter};
use super::repository_error::RepositoryError;

verus! {

/// Reading of missions.
pub trait MissionViewingRepository {
    /// Whether `r` is an outcome that `crew_counting` may give for these arguments.
    spec fn crew_counting_outcome(&self, mission_id: i32, r: Result<i64, RepositoryError>) -> bool;

    /// The number of brawlers in the mission's crew.
    fn crew_counting(&self, mission_id: i32) -> (r: Result<i64, RepositoryError>)
        ensures
            self.crew_counting_outcome(mission_id, r),
    ;

    /// Whether `r` is an outcome that `get_one` may give for these arguments.
    spec fn get_one_outcome(&self, mission_id: i32, r: Result<MissionEntity, RepositoryError>) -> bool;

    /// The mission with id `mission_id`, unless it is deleted; an error when there is none.
    fn get_one(&self, mission_id: i32) -> (r: Result<MissionEntity, RepositoryError>)
        ensures
            self.get_one_outcome(mission_id, r),
    ;

    /// The missions that meet the filter, newest first.
    fn get_all(&self, mission_filter: &MissionFilter) -> Result<Vec<MissionEntity>, RepositoryError>;

    /// The crew members of the mission with their mission counts.
    fn get_mission_count(&self, mission_id: i32) -> Result<Vec<BrawlerModel>, RepositoryError>;

    /// The display name of the brawler `chief_id`.
    fn get_chief_name(&self, chief_id: i32) -> Result<String, RepositoryError>;
}

} // verus!
