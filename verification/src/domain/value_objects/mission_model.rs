//! Missions as clients create, edit and see them.
use vstd::prelude::*;
use crate::domain::entities::missions::{AddMissionEntity, EditMissionEntity};
use crate::domain::value_objects::mission_statuses::{MissionStatuses, status_text};
use crate::text::copy_optional;

verus! {

/// A mission as clients see it. Times are microseconds since the Unix epoch (UTC).
pub struct MissionModel {
    pub id: i32,
    pub name: String,
    pub description: Option<String>,
    pub status: String,
    pub chief_id: i32,
    pub chief_name: String,
    pub crew_count: i64,
    pub image_url: Option<String>,
    pub code: String,
    pub max_participants: i32,
    pub created_at: i64,
    pub updated_at: i64,
}

/// A request to create a mission.
pub struct AddMissionModel {
    pub name: String,
    pub description: Option<String>,
    pub image_url: Option<String>,
    pub max_participants: i32,
}

impl AddMissionModel {
    /// The mission to store for this request: Open, led by `chief_id`, under `code`.
    pub fn to_entity_with_code(&self, chief_id: i32, code: String) -> (r: AddMissionEntity)
        ensures
            r.name@ == self.name@,
            r.description == self.description,
            r.status@ == status_text(MissionStatuses::Open),
            r.chief_id == chief_id,
            r.image_url == self.image_url,
            r.code == code,
            r.max_participants == self.max_participants,
    {
        AddMissionEntity {
            name: self.name.clone(),
            description: copy_optional(&self.description),
            status: MissionStatuses::Open.to_text(),
            chief_id,
            image_url: copy_optional(&self.image_url),
            code,
            max_participants: self.max_participants,
        }
    }
}

/// A request to change a mission; `None` leaves a field as it is.
pub struct EditMissionModel {
    pub name: Option<String>,
    pub description: Option<String>,
    pub max_participants: Option<i32>,
}

impl EditMissionModel {
    /// The change to store for this request, asked for by `chief_id`.
    pub fn to_entity(&self, chief_id: i32) -> (r: EditMissionEntity)
        ensures
            r.name == self.name,
            r.description == self.description,
            r.chief_id == chief_id,
            r.max_participants == self.max_participants,
    {
        EditMissionEntity {
            name: copy_optional(&self.name),
            description: copy_optional(&self.description),
            chief_id,
            max_participants: self.max_participants,
        }
    }
}

} // verus!
