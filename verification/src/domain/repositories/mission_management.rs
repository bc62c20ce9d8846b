//! Where missions are created, changed and deleted.
use vstd::prelude::*;
use crate::domain::effects::{Effect, EffectLog};
use crate::domain::entities::missions::{AddMissionEntity, EditMissionEntity};
use super::repository_error::RepositoryError;

verus! {

/// Creation, change and deletion of missions.
pub trait MissionManagementRepository {
    /// Whether `r` is an outcome that `add` may give for these arguments.
    spec fn add_outcome(&self, add_mission_entity: AddMissionEntity, r: Result<i32, RepositoryError>) -> bool;

    /// Stores a mission and gives its id.
    fn add(&self, add_mission_entity: AddMissionEntity, log: &mut EffectLog) -> (r: Result<i32, RepositoryError>)
        ensures
            self.add_outcome(add_mission_entity, r),
            final(log)@ == old(log)@.push(Effect::MissionAdded(add_mission_entity)),
    ;

    /// Whether `r` is an outcome that `edit` may give for these arguments.
    spec fn edit_outcome(&self, mission_id: i32, edit_mission_entity: EditMissionEntity, r: Result<i32, RepositoryError>) -> bool;

    /// Changes the mission if `edit_mission_entity.chief_id` leads it; gives its id.
    fn edit(&self, mission_id: i32, edit_mission_entity: EditMissionEntity, log: &mut EffectLog) -> (r: Result<i32, RepositoryError>)
        ensures
            self.edit_outcome(mission_id, edit_mission_entity, r),
            final(log)@ == old(log)@.push((Effect::MissionEdited { mission_id, entity: edit_mission_entity })),
    ;

    /// Whether `r` is an outcome that `remove` may give for these arguments.
    spec fn remove_outcome(&self, mission_id: i32, chief_id: i32, r: Result<(), RepositoryError>) -> bool;

    /// Deletes the mission if `chief_id` leads it.
    fn remove(&self, mission_id: i32, chief_id: i32, log: &mut EffectLog) -> (r: Result<(), RepositoryError>)
        ensures
            self.remove_outcome(mission_id, chief_id, r),
            final(log)@ == old(log)@.push((Effect::MissionRemoved { mission_id, chief_id })),
    ;
}

} // verus!
