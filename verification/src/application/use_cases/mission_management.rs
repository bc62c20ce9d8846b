//! Creating, changing and deleting missions.
use std::sync::Arc;
use vstd::prelude::*;
use crate::domain::effects::{Effect, EffectLog};
use vstd::string::StrSliceExecFns;
use vstd::utf8::encode_utf8;
use crate::domain::entities::missions::{AddMissionEntity, CrewMemberShips, EditMissionEntity, MissionEntity};
use crate::domain::value_objects::mission_statuses::{MissionStatuses, status_text};
use crate::domain::repositories::crew_operation::CrewOperationRepository;
use crate::domain::repositories::mission_management::MissionManagementRepository;
use crate::domain::repositories::mission_viewing::MissionViewingRepository;
use crate::domain::repositories::repository_error::RepositoryError;
use crate::domain::value_objects::mission_model::{AddMissionModel, EditMissionModel};
use crate::infrastructure::identifiers::{is_uuid_text, new_uuid_v4_text};
use crate::text::{
    is_blank, normalize_optional_text, normalized_text, opt_view, push_char, trim, trim_str,
};

verus! {

/// Why a mission was not created, changed or deleted.
pub enum MissionManagementError {
    Repository(RepositoryError),
    /// A mission's name must be at least 3 bytes long once trimmed.
    NameTooShort,
    /// The chief is already in the active mission `name` (#`code`).
    AlreadyInActiveMission { name: String, code: String },
    /// Other crew members are still in the mission.
    HasOtherCrew,
}

/// A mission name is acceptable when, without its surrounding whitespace, it
/// is at least 3 bytes long in UTF-8.
pub open spec fn name_acceptable(name: Seq<char>) -> bool {
    encode_utf8(trim(name)).len() >= 3
}

/// Whether `name` is acceptable as a mission's name.
pub fn check_mission_name(name: &str) -> (b: bool)
    ensures
        b == name_acceptable(name@),
{
    trim_str(name).as_bytes().len() >= 3
}

/// What becomes of the name in a change request: a blank name leaves the
/// name as it is (`Ok(None)`), a short one is refused (`Err(())`), any other
/// is kept trimmed.
pub open spec fn edited_name(name: Option<Seq<char>>) -> Result<Option<Seq<char>>, ()> {
    match name {
        None => Ok(None),
        Some(s) => if is_blank(s) {
            Ok(None)
        } else if !name_acceptable(s) {
            Err(())
        } else {
            Ok(Some(trim(s)))
        },
    }
}

/// The change request as it is stored: names and descriptions trimmed, blank
/// ones left out; `Err(NameTooShort)` for a name that is short once trimmed.
pub fn normalize_edit(model: EditMissionModel) -> (r: Result<EditMissionModel, MissionManagementError>)
    ensures
        match edited_name(opt_view(model.name)) {
            Err(_) => r matches Err(MissionManagementError::NameTooShort),
            Ok(n) => r matches Ok(m) && opt_view(m.name) == n && opt_view(m.description)
                == normalized_text(opt_view(model.description)) && m.max_participants
                == model.max_participants,
        },
{
    let name = match model.name {
        Some(n) => {
            let t = trim_str(n.as_str());
            if t.unicode_len() == 0 {
                None
            } else if t.as_bytes().len() < 3 {
                return Err(MissionManagementError::NameTooShort);
            } else {
                Some(t.to_owned())
            }
        },
        None => None,
    };
    let description = normalize_optional_text(model.description);
    Ok(EditMissionModel { name, description, max_participants: model.max_participants })
}

/// An upper-case hexadecimal digit.
pub open spec fn is_upper_hex_digit(c: char) -> bool {
    ('0' <= c <= '9') || ('A' <= c <= 'F')
}

/// The letter `c` in upper case, for ASCII lower-case letters; `c` otherwise.
pub open spec fn ascii_upper(c: char) -> char {
    if 'a' <= c <= 'z' {
        ((c as u32) - 32) as char
    } else {
        c
    }
}

/// The join code of a mission made from the text of a UUID: the first five
/// characters of the text with its hyphens removed, in upper case. The first
/// hyphen of such a text is at position 8, so these are its first five.
pub open spec fn code_from_uuid(t: Seq<char>) -> Seq<char> {
    t.subrange(0, 5).map_values(|c: char| ascii_upper(c))
}

fn upper_ascii_char(c: char) -> (u: char)
    ensures
        u == ascii_upper(c),
{
    if 'a' <= c && c <= 'z' {
        let v: u32 = (c as u32) - 32;
        proof {
            assert(v < 0xD800);
        }
        char_from_ascii(v)
    } else {
        c
    }
}

/// The character with code `v` (`char::from_u32`); `v` is below 0xD800, so there is one.
#[verifier::external_body]
fn char_from_ascii(v: u32) -> (c: char)
    requires
        v < 0xD800,
    ensures
        c == v as char,
{
    char::from_u32(v).unwrap()
}

/// The join code made from the UUID text `t`.
pub fn code_from_uuid_text(t: &str) -> (code: String)
    requires
        is_uuid_text(t@),
    ensures
        code@ == code_from_uuid(t@),
{
    let mut code = String::new();
    let mut i: usize = 0;
    while i < 5
        invariant
            is_uuid_text(t@),
            i <= 5,
            code@ == t@.subrange(0, i as int).map_values(|c: char| ascii_upper(c)),
        decreases 5 - i,
    {
        let c = t.get_char(i);
        let u = upper_ascii_char(c);
        push_char(&mut code, u);
        proof {
            assert(t@.subrange(0, i + 1).map_values(|c: char| ascii_upper(c)) =~= t@.subrange(
                0,
                i as int,
            ).map_values(|c: char| ascii_upper(c)).push(u));
        }
        i = i + 1;
    }
    code
}

/// A join code is five upper-case hexadecimal digits.
pub proof fn lemma_code_shape(t: Seq<char>)
    requires
        is_uuid_text(t),
    ensures
        code_from_uuid(t).len() == 5,
        forall|i: int| 0 <= i < 5 ==> is_upper_hex_digit(#[trigger] code_from_uuid(t)[i]),
{
    assert forall|i: int| 0 <= i < 5 implies is_upper_hex_digit(#[trigger] code_from_uuid(t)[i]) by {
        assert(t[i] == t.subrange(0, 5)[i]);
        assert(crate::infrastructure::identifiers::is_lower_hex_digit(t[i]));
    }
}

/// A storage outcome as mission management reports it: its value, or its
/// error as a repository error.
pub open spec fn lift_management<T>(o: Result<T, RepositoryError>) -> Result<T, MissionManagementError> {
    match o {
        Ok(v) => Ok(v),
        Err(e) => Err(MissionManagementError::Repository(e)),
    }
}

/// The use case that creates, changes and deletes missions.
pub struct MissionManagementUseCase<T1, T2, T3> where
    T1: MissionManagementRepository + Send + Sync,
    T2: MissionViewingRepository + Send + Sync,
    T3: CrewOperationRepository + Send + Sync,
 {
    mission_management_repository: Arc<T1>,
    mission_viewing_repository: Arc<T2>,
    crew_operation_repository: Arc<T3>,
}

impl<T1, T2, T3> MissionManagementUseCase<T1, T2, T3> where
    T1: MissionManagementRepository + Send + Sync,
    T2: MissionViewingRepository + Send + Sync,
    T3: CrewOperationRepository + Send + Sync,
 {
    /// The repositories that the use case works on.
    pub closed spec fn repositories(&self) -> (Arc<T1>, Arc<T2>, Arc<T3>) {
        (
            self.mission_management_repository,
            self.mission_viewing_repository,
            self.crew_operation_repository,
        )
    }

    pub fn new(
        mission_management_repository: Arc<T1>,
        mission_viewing_repository: Arc<T2>,
        crew_operation_repository: Arc<T3>,
    ) -> (r: Self)
        ensures
            r.repositories() == (
                mission_management_repository,
                mission_viewing_repository,
                crew_operation_repository,
            ),
    {
        MissionManagementUseCase {
            mission_management_repository,
            mission_viewing_repository,
            crew_operation_repository,
        }
    }

    /// `ent` is the mission stored for `model`, led by `chief_id`: its name,
    /// image and crew size as asked, its description normalised, the status
    /// Open, and a join code made from a UUID.
    pub open spec fn is_new_mission(ent: AddMissionEntity, model: AddMissionModel, chief_id: i32) -> bool {
        &&& ent.name@ == model.name@
        &&& opt_view(ent.description) == normalized_text(opt_view(model.description))
        &&& ent.status@ == status_text(MissionStatuses::Open)
        &&& ent.chief_id == chief_id
        &&& ent.image_url == model.image_url
        &&& ent.max_participants == model.max_participants
        &&& exists|t: Seq<char>| is_uuid_text(t) && ent.code@ == code_from_uuid(t)
    }

    /// `r` is what creating the mission of `model` for `chief_id` gives, once
    /// the name is accepted, from what the storage gave: the chief's current
    /// mission (whose name and code a refusal carries), then the new
    /// mission's id, then the chief's joining its crew.
    pub open spec fn created(
        &self,
        chief_id: i32,
        model: AddMissionModel,
        before: Seq<Effect>,
        after: Seq<Effect>,
        r: Result<i32, MissionManagementError>,
    ) -> bool {
        exists|c: Result<Option<i32>, RepositoryError>|
            #[trigger] self.repositories().2.get_current_mission_outcome(chief_id, c) && match c {
                Err(e) => r == Err::<i32, MissionManagementError>(MissionManagementError::Repository(e))
                    && after == before,
                Ok(Some(mid)) => after == before && exists|g: Result<MissionEntity, RepositoryError>|
                    #[trigger] self.repositories().1.get_one_outcome(mid, g) && match g {
                        Err(e) => r == Err::<i32, MissionManagementError>(MissionManagementError::Repository(e)),
                        Ok(m) => r == Err::<i32, MissionManagementError>(
                            MissionManagementError::AlreadyInActiveMission { name: m.name, code: m.code },
                        ),
                    },
                Ok(None) => exists|ent: AddMissionEntity, o: Result<i32, RepositoryError>|
                    #[trigger] self.repositories().0.add_outcome(ent, o) && Self::is_new_mission(
                        ent,
                        model,
                        chief_id,
                    ) && match o {
                        Err(e) => r == Err::<i32, MissionManagementError>(MissionManagementError::Repository(e))
                            && after == before.push(Effect::MissionAdded(ent)),
                        Ok(id) => exists|j: Result<(), RepositoryError>|
                            #[trigger] self.repositories().2.join_outcome(
                                (CrewMemberShips { mission_id: id, brawler_id: chief_id }),
                                j,
                            ) && after == before.push(Effect::MissionAdded(ent)).push(
                                Effect::Joined(CrewMemberShips { mission_id: id, brawler_id: chief_id }),
                            ) && match j {
                                Err(e) => r == Err::<i32, MissionManagementError>(
                                    MissionManagementError::Repository(e),
                                ),
                                Ok(()) => r == Ok::<i32, MissionManagementError>(id),
                            },
                    },
            }
    }

    /// Creates a mission led by `chief_id` and puts the chief in its crew.
    /// The name must be acceptable (checked before anything is read); a chief
    /// who is already in an active mission is refused with that mission's
    /// name and code. The description is kept trimmed, or left out when
    /// blank; the mission gets a fresh join code and the status Open.
    pub fn add(&self, chief_id: i32, add_mission_model: AddMissionModel, log: &mut EffectLog) -> (r: Result<
        i32,
        MissionManagementError,
    >)
        ensures
            !name_acceptable(add_mission_model.name@) <==> r matches Err(MissionManagementError::NameTooShort),
            !name_acceptable(add_mission_model.name@) ==> final(log)@ == old(log)@,
            name_acceptable(add_mission_model.name@) ==> self.created(
                chief_id,
                add_mission_model,
                old(log)@,
                final(log)@,
                r,
            ),
            !(r matches Err(MissionManagementError::HasOtherCrew)),
    {
        let ghost model = add_mission_model;
        let ghost before = log@;
        if !check_mission_name(add_mission_model.name.as_str()) {
            return Err(MissionManagementError::NameTooShort);
        }
        let current = self.crew_operation_repository.get_current_mission(chief_id);
        let ghost c = current;
        assert(self.repositories().2.get_current_mission_outcome(chief_id, c));
        let current_mission = match current {
            Ok(c) => c,
            Err(e) => {
                let r: Result<i32, MissionManagementError> = Err(MissionManagementError::Repository(e));
                assert(self.created(chief_id, model, before, log@, r));
                return r;
            },
        };
        if let Some(mid) = current_mission {
            let read = self.mission_viewing_repository.get_one(mid);
            let ghost g = read;
            assert(self.repositories().1.get_one_outcome(mid, g));
            let r: Result<i32, MissionManagementError> = match read {
                Ok(mission) => Err(
                    MissionManagementError::AlreadyInActiveMission {
                        name: mission.name,
                        code: mission.code,
                    },
                ),
                Err(e) => Err(MissionManagementError::Repository(e)),
            };
            assert(self.created(chief_id, model, before, log@, r));
            return r;
        }
        let model_normalized = AddMissionModel {
            name: add_mission_model.name,
            description: normalize_optional_text(add_mission_model.description),
            image_url: add_mission_model.image_url,
            max_participants: add_mission_model.max_participants,
        };
        let code = self.generate_random_code();
        let insert_mission_entity = model_normalized.to_entity_with_code(chief_id, code);
        let ghost ent = insert_mission_entity;
        assert(Self::is_new_mission(ent, model, chief_id));
        let added = self.mission_management_repository.add(insert_mission_entity, log);
        let ghost o = added;
        assert(self.repositories().0.add_outcome(ent, o));
        let mission_id = match added {
            Ok(id) => id,
            Err(e) => {
                let r: Result<i32, MissionManagementError> = Err(MissionManagementError::Repository(e));
                assert(self.created(chief_id, model, before, log@, r));
                return r;
            },
        };
        let joined = self.crew_operation_repository.join(
            CrewMemberShips { mission_id, brawler_id: chief_id },
            log,
        );
        let ghost j = joined;
        assert(self.repositories().2.join_outcome(
            (CrewMemberShips { mission_id, brawler_id: chief_id }),
            j,
        ));
        let r: Result<i32, MissionManagementError> = match joined {
            Ok(()) => Ok(mission_id),
            Err(e) => Err(MissionManagementError::Repository(e)),
        };
        assert(self.created(chief_id, model, before, log@, r));
        r
    }

    /// Changes the mission as `normalize_edit` turns the request, for its
    /// chief: a short name is refused before anything is stored; otherwise
    /// the result is the storage's outcome of the change.
    pub fn edit(
        &self,
        mission_id: i32,
        chief_id: i32,
        edit_mission_model: EditMissionModel,
        log: &mut EffectLog,
    ) -> (r: Result<i32, MissionManagementError>)
        ensures
            edited_name(opt_view(edit_mission_model.name)) is Err ==> final(log)@ == old(log)@,
            edited_name(opt_view(edit_mission_model.name)) is Err <==> r matches Err(
                MissionManagementError::NameTooShort,
            ),
            r is Err ==> (r matches Err(MissionManagementError::NameTooShort) || r matches Err(
                MissionManagementError::Repository(_),
            )),
            edited_name(opt_view(edit_mission_model.name)) matches Ok(n) ==> exists|
                ent: EditMissionEntity,
                o: Result<i32, RepositoryError>,
            |
                #[trigger] self.repositories().0.edit_outcome(mission_id, ent, o) && opt_view(ent.name)
                    == n && opt_view(ent.description) == normalized_text(
                    opt_view(edit_mission_model.description),
                ) && ent.chief_id == chief_id && ent.max_participants
                    == edit_mission_model.max_participants && r == lift_management(o) && final(log)@
                    == old(log)@.push(Effect::MissionEdited { mission_id, entity: ent }),
    {
        let model = match normalize_edit(edit_mission_model) {
            Ok(m) => m,
            Err(e) => return Err(e),
        };
        let edit_mission_entity = model.to_entity(chief_id);
        let ghost ent = edit_mission_entity;
        let o = self.mission_management_repository.edit(mission_id, edit_mission_entity, log);
        let ghost og = o;
        let r = match o {
            Ok(id) => Ok(id),
            Err(e) => Err(MissionManagementError::Repository(e)),
        };
        assert(self.repositories().0.edit_outcome(mission_id, ent, og) && r == lift_management(og));
        r
    }

    /// Deletes the mission for its chief, unless others than one brawler are
    /// in its crew: the crew is counted first, and only a crew of at most one
    /// lets the deletion be asked of the storage.
    pub fn remove(&self, mission_id: i32, chief_id: i32, log: &mut EffectLog) -> (r: Result<
        (),
        MissionManagementError,
    >)
        ensures
            r is Err ==> (r matches Err(MissionManagementError::HasOtherCrew) || r matches Err(
                MissionManagementError::Repository(_),
            )),
            exists|c: Result<i64, RepositoryError>|
                #[trigger] self.repositories().1.crew_counting_outcome(mission_id, c) && match c {
                    Err(e) => r == Err::<(), MissionManagementError>(MissionManagementError::Repository(e))
                        && final(log)@ == old(log)@,
                    Ok(n) => if n > 1 {
                        r == Err::<(), MissionManagementError>(MissionManagementError::HasOtherCrew)
                            && final(log)@ == old(log)@
                    } else {
                        final(log)@ == old(log)@.push(Effect::MissionRemoved { mission_id, chief_id })
                            && exists|o: Result<(), RepositoryError>|
                            #[trigger] self.repositories().0.remove_outcome(mission_id, chief_id, o)
                                && r == lift_management(o)
                    },
                },
    {
        let counted = self.mission_viewing_repository.crew_counting(mission_id);
        let ghost cg = counted;
        assert(self.repositories().1.crew_counting_outcome(mission_id, cg));
        let crew_count = match counted {
            Ok(c) => c,
            Err(e) => {
                let r: Result<(), MissionManagementError> = Err(MissionManagementError::Repository(e));
                return r;
            },
        };
        match check_removal(crew_count) {
            Ok(()) => {},
            Err(e) => {
                let r: Result<(), MissionManagementError> = Err(e);
                return r;
            },
        }
        let o = self.mission_management_repository.remove(mission_id, chief_id, log);
        let ghost outcome = o;
        let r = match o {
            Ok(()) => Ok(()),
            Err(e) => Err(MissionManagementError::Repository(e)),
        };
        assert(self.repositories().0.remove_outcome(mission_id, chief_id, outcome) && r
            == lift_management(outcome));
        r
    }

    /// A fresh join code: five upper-case hexadecimal digits from a random UUID.
    fn generate_random_code(&self) -> (code: String)
        ensures
            exists|t: Seq<char>| is_uuid_text(t) && code@ == code_from_uuid(t),
    {
        let t = new_uuid_v4_text();
        code_from_uuid_text(t.as_str())
    }
}

/// A mission with `crew_count` crew members can be deleted only when no one
/// but (at most) its chief is in its crew.
pub fn check_removal(crew_count: i64) -> (r: Result<(), MissionManagementError>)
    ensures
        crew_count > 1 <==> r matches Err(MissionManagementError::HasOtherCrew),
        crew_count <= 1 <==> r is Ok,
{
    if crew_count > 1 {
        Err(MissionManagementError::HasOtherCrew)
    } else {
        Ok(())
    }
}

} // verus!
