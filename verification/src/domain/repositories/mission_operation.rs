//! Where a mission's status is changed.
use vstd::prelude::*;
use crate::domain::effects::{Effect, EffectLog};
use super::repository_error::RepositoryError;

verus! {

/// Changes of a mission's status, each made for the mission's chief.
pub trait MissionOperationRepository {
    /// Whether `r` is an outcome that `to_progress` may give for these arguments.
    spec fn to_progress_outcome(&self, mission_id: i32, chief_id: i32, r: Result<i32, RepositoryError>) -> bool;

    fn to_progress(&self, mission_id: i32, chief_id: i32, log: &mut EffectLog) -> (r: Result<i32, RepositoryError>)
        ensures
            self.to_progress_outcome(mission_id, chief_id, r),
            final(log)@ == old(log)@.push((Effect::MissionStarted { mission_id, chief_id })),
    ;

    /// Whether `r` is an outcome that `to_completed` may give for these arguments.
    spec fn to_completed_outcome(&self, mission_id: i32, chief_id: i32, r: Result<i32, RepositoryError>) -> bool;

    fn to_completed(&self, mission_id: i32, chief_id: i32, log: &mut EffectLog) -> (r: Result<i32, RepositoryError>)
        ensures
            self.to_completed_outcome(mission_id, chief_id, r),
            final(log)@ == old(log)@.push((Effect::MissionCompleted { mission_id, chief_id })),
    ;

    /// Whether `r` is an outcome that `to_failed` may give for these arguments.
    spec fn to_failed_outcome(&self, mission_id: i32, chief_id: i32, r: Result<i32, RepositoryError>) -> bool;

    fn to_failed(&self, mission_id: i32, chief_id: i32, log: &mut EffectLog) -> (r: Result<i32, RepositoryError>)
        ensures
            self.to_failed_outcome(mission_id, chief_id, r),
            final(log)@ == old(log)@.push((Effect::MissionFailed { mission_id, chief_id })),
    ;
}

} // verus!
