//! Starting, completing and failing missions.
use std::sync::Arc;
use vstd::prelude::*;
use crate::decimal::{parse_i64, parsed_i64};
use crate::domain::entities::missions::MissionEntity;
use crate::domain::repositories::mission_operation::MissionOperationRepository;
use crate::domain::repositories::mission_viewing::MissionViewingRepository;
use crate::domain::repositories::repository_error::RepositoryError;
use crate::domain::value_objects::mission_statuses::{MissionStatuses, has_status, status_text};
use crate::domain::effects::{Effect, EffectLog};
use crate::domain::value_objects::realtime::RealtimeEvent;
use crate::infrastructure::realtime::SharedRealtimeHub;

verus! {

/// Why a mission's status was not changed.
pub enum MissionOperationError {
    Repository(RepositoryError),
    /// The crew limit setting is not a decimal `i64`.
    InvalidCrewLimit,
    /// Only an Open mission can be started; its status is `current_status`.
    NotOpen { current_status: String },
    /// A mission without crew cannot be started.
    NoCrew,
    /// The crew has reached the limit `max_crew_per_mission`.
    CrewLimitReached { max_crew_per_mission: i64 },
    /// Only an InProgress mission can be completed or failed; its status is `current_status`.
    NotInProgress { current_status: String },
    /// Only the mission's chief can change its status.
    NotChief,
}

/// The reason, if any, that a status change is refused, without its details.
#[derive(PartialEq, Eq, Structural, Clone, Copy, Debug)]
pub enum TransitionRefusal {
    NotOpen,
    NoCrew,
    CrewLimitReached,
    NotInProgress,
    NotChief,
}

/// Why `requester` may not start a mission that is in status `status`, led by
/// `chief_id`, with `crew_count` crew members under the limit `max_crew`; the
/// checks are made in this order.
pub open spec fn start_refusal(
    status: Seq<char>,
    chief_id: i32,
    crew_count: i64,
    max_crew: i64,
    requester: i32,
) -> Option<TransitionRefusal> {
    if !has_status(status, MissionStatuses::Open) {
        Some(TransitionRefusal::NotOpen)
    } else if crew_count <= 0 {
        Some(TransitionRefusal::NoCrew)
    } else if crew_count >= max_crew {
        Some(TransitionRefusal::CrewLimitReached)
    } else if chief_id != requester {
        Some(TransitionRefusal::NotChief)
    } else {
        None
    }
}

/// Why `requester` may not complete or fail a mission in status `status` led by `chief_id`.
pub open spec fn finish_refusal(status: Seq<char>, chief_id: i32, requester: i32) -> Option<
    TransitionRefusal,
> {
    if !has_status(status, MissionStatuses::InProgress) {
        Some(TransitionRefusal::NotInProgress)
    } else if chief_id != requester {
        Some(TransitionRefusal::NotChief)
    } else {
        None
    }
}

/// The error that a refusal is reported as, for a mission in status `status`.
pub open spec fn refusal_matches(
    e: MissionOperationError,
    refusal: TransitionRefusal,
    status: Seq<char>,
    max_crew: i64,
) -> bool {
    match refusal {
        TransitionRefusal::NotOpen => e matches MissionOperationError::NotOpen { current_status }
            && current_status@ == status,
        TransitionRefusal::NoCrew => e is NoCrew,
        TransitionRefusal::CrewLimitReached => e matches MissionOperationError::CrewLimitReached {
            max_crew_per_mission,
        } && max_crew_per_mission == max_crew,
        TransitionRefusal::NotInProgress => e matches MissionOperationError::NotInProgress {
            current_status,
        } && current_status@ == status,
        TransitionRefusal::NotChief => e is NotChief,
    }
}

/// `r` is the decision on a start of `mission`, which has `crew_count` crew
/// members, under the crew limit `max_crew`, asked by `requester`: `Ok` when
/// nothing refuses it, else the error that reports the refusal.
pub open spec fn start_decision(
    r: Result<(), MissionOperationError>,
    mission: MissionEntity,
    crew_count: i64,
    max_crew: i64,
    requester: i32,
) -> bool {
    match start_refusal(mission.status@, mission.chief_id, crew_count, max_crew, requester) {
        None => r is Ok,
        Some(refusal) => r matches Err(e) && refusal_matches(e, refusal, mission.status@, max_crew),
    }
}

/// `r` is the decision on completing or failing `mission`, asked by `requester`.
pub open spec fn finish_decision(
    r: Result<(), MissionOperationError>,
    mission: MissionEntity,
    requester: i32,
) -> bool {
    match finish_refusal(mission.status@, mission.chief_id, requester) {
        None => r is Ok,
        Some(refusal) => r matches Err(e) && refusal_matches(e, refusal, mission.status@, 0),
    }
}

/// Decides whether `chief_id` may start `mission`, which has `crew_count` crew
/// members, under the crew limit `max_crew_per_mission`.
pub fn check_start(
    mission: &MissionEntity,
    crew_count: i64,
    max_crew_per_mission: i64,
    chief_id: i32,
) -> (r: Result<(), MissionOperationError>)
    ensures
        start_decision(r, *mission, crew_count, max_crew_per_mission, chief_id),
{
    if !MissionStatuses::Open.matches(mission.status.as_str()) {
        return Err(MissionOperationError::NotOpen { current_status: mission.status.clone() });
    }
    if crew_count <= 0 {
        return Err(MissionOperationError::NoCrew);
    }
    if crew_count >= max_crew_per_mission {
        return Err(
            MissionOperationError::CrewLimitReached { max_crew_per_mission: max_crew_per_mission },
        );
    }
    if mission.chief_id != chief_id {
        return Err(MissionOperationError::NotChief);
    }
    Ok(())
}

/// Decides whether `chief_id` may complete or fail `mission`.
pub fn check_finish(mission: &MissionEntity, chief_id: i32) -> (r: Result<
    (),
    MissionOperationError,
>)
    ensures
        finish_decision(r, *mission, chief_id),
{
    if !MissionStatuses::InProgress.matches(mission.status.as_str()) {
        return Err(MissionOperationError::NotInProgress { current_status: mission.status.clone() });
    }
    if mission.chief_id != chief_id {
        return Err(MissionOperationError::NotChief);
    }
    Ok(())
}

/// A mission's status moves only from Open to InProgress and from InProgress
/// to Completed or Failed, and only its chief moves it: a start is allowed
/// only for an Open mission of the requester with some crew below the limit, a
/// completion or failure only for an InProgress mission of the requester, and
/// no change at all leaves Completed or Failed.
pub proof fn lemma_mission_lifecycle(
    status: Seq<char>,
    chief_id: i32,
    crew_count: i64,
    max_crew: i64,
    requester: i32,
)
    ensures
        start_refusal(status, chief_id, crew_count, max_crew, requester) is None <==> (has_status(
            status,
            MissionStatuses::Open,
        ) && 0 < crew_count < max_crew && chief_id == requester),
        finish_refusal(status, chief_id, requester) is None <==> (has_status(
            status,
            MissionStatuses::InProgress,
        ) && chief_id == requester),
        (has_status(status, MissionStatuses::Completed) || has_status(
            status,
            MissionStatuses::Failed,
        )) ==> start_refusal(status, chief_id, crew_count, max_crew, requester) is Some
            && finish_refusal(status, chief_id, requester) is Some,
{
    reveal_strlit("Open");
}

/// A storage outcome as mission operations report it: its value, or its
/// error as a repository error.
pub open spec fn lift_operation<T>(o: Result<T, RepositoryError>) -> Result<T, MissionOperationError> {
    match o {
        Ok(v) => Ok(v),
        Err(e) => Err(MissionOperationError::Repository(e)),
    }
}

/// `r` follows the decision `d`: its refusal, or else what `rest` says.
pub open spec fn after_decision<T>(
    d: Result<(), MissionOperationError>,
    r: Result<T, MissionOperationError>,
    rest: bool,
) -> bool {
    match d {
        Err(e) => r == Err::<T, MissionOperationError>(e),
        Ok(()) => rest,
    }
}

/// The log went from `before` to `after` by the status change `write`
/// and, when it `succeeded`, the announcement that `mission_id` now has
/// `status`, changed by `brawler_id`.
pub open spec fn status_changed(
    before: Seq<Effect>,
    after: Seq<Effect>,
    write: Effect,
    succeeded: bool,
    mission_id: i32,
    status: MissionStatuses,
    brawler_id: i32,
) -> bool {
    if succeeded {
        exists|text: String|
            #![auto]
            after == before.push(write).push(
                Effect::Announced(RealtimeEvent::MissionStatusChanged { mission_id, status: text, brawler_id }),
            ) && text@ == status_text(status)
    } else {
        after == before.push(write)
    }
}

/// The use case that moves missions through their statuses.
pub struct MissionOperationUseCase<T1, T2> where
    T1: MissionOperationRepository + Send + Sync,
    T2: MissionViewingRepository + Send + Sync,
 {
    mission_operation_repository: Arc<T1>,
    missiom_viewing_repository: Arc<T2>,
    pub realtime_hub: SharedRealtimeHub,
}

impl<T1, T2> MissionOperationUseCase<T1, T2> where
    T1: MissionOperationRepository + Send + Sync,
    T2: MissionViewingRepository + Send + Sync,
 {
    pub fn new(
        mission_operation_repository: Arc<T1>,
        missiom_viewing_repository: Arc<T2>,
        realtime_hub: SharedRealtimeHub,
    ) -> (r: Self)
        ensures
            r.repositories() == (mission_operation_repository, missiom_viewing_repository),
            r.hub() == realtime_hub,
    {
        MissionOperationUseCase {
            mission_operation_repository,
            missiom_viewing_repository,
            realtime_hub,
        }
    }

    /// The hub through which status changes and requests are announced.
    pub closed spec fn hub(&self) -> SharedRealtimeHub {
        self.realtime_hub
    }

    /// The repositories that the use case works on.
    pub closed spec fn repositories(&self) -> (Arc<T1>, Arc<T2>) {
        (self.mission_operation_repository, self.missiom_viewing_repository)
    }

    /// `r` is what starting `mission_id` for `chief_id` gives, from what the
    /// storage gave: the mission, then its crew count, then (with the crew
    /// limit that the setting gives) the decision of `check_start`, and only
    /// when it allows the start, the outcome of the status change.
    /// The log, `before` and then `after` the call, gains nothing unless the
    /// start is allowed; then it gains the status change and, when that
    /// succeeds, the announcement that the mission is InProgress.
    pub open spec fn started(
        &self,
        mission_id: i32,
        chief_id: i32,
        setting: Seq<char>,
        before: Seq<Effect>,
        after: Seq<Effect>,
        r: Result<i32, MissionOperationError>,
    ) -> bool {
        exists|g: Result<MissionEntity, RepositoryError>|
            #[trigger] self.repositories().1.get_one_outcome(mission_id, g) && match g {
                Err(e) => r == Err::<i32, MissionOperationError>(MissionOperationError::Repository(e))
                    && after == before,
                Ok(m) => exists|c: Result<i64, RepositoryError>|
                    #[trigger] self.repositories().1.crew_counting_outcome(mission_id, c) && match c {
                        Err(e) => r == Err::<i32, MissionOperationError>(MissionOperationError::Repository(e))
                            && after == before,
                        Ok(cc) => match parsed_i64(setting) {
                            None => r == Err::<i32, MissionOperationError>(MissionOperationError::InvalidCrewLimit)
                                && after == before,
                            Some(max) => exists|d: Result<(), MissionOperationError>|
                                #[trigger] start_decision(d, m, cc, max, chief_id) && after_decision(
                                    d,
                                    r,
                                    exists|o: Result<i32, RepositoryError>|
                                        #[trigger] self.repositories().0.to_progress_outcome(mission_id, chief_id, o)
                                            && r == lift_operation(o) && status_changed(
                                            before,
                                            after,
                                            Effect::MissionStarted { mission_id, chief_id },
                                            o is Ok,
                                            mission_id,
                                            MissionStatuses::InProgress,
                                            chief_id,
                                        ),
                                ) && (d is Err ==> after == before),
                        },
                    },
            }
    }

    /// `r` is what completing (`completed`) or failing `mission_id` for
    /// `chief_id` gives, from what the storage gave: the mission, then the
    /// decision of `check_finish`, and only when it allows the change, the
    /// outcome of the status change.
    /// The log gains nothing unless the change is allowed; then it gains
    /// the status change and, when that succeeds, the announcement of the
    /// new status.
    pub open spec fn finished(
        &self,
        mission_id: i32,
        chief_id: i32,
        completed: bool,
        before: Seq<Effect>,
        after: Seq<Effect>,
        r: Result<i32, MissionOperationError>,
    ) -> bool {
        exists|g: Result<MissionEntity, RepositoryError>|
            #[trigger] self.repositories().1.get_one_outcome(mission_id, g) && match g {
                Err(e) => r == Err::<i32, MissionOperationError>(MissionOperationError::Repository(e))
                    && after == before,
                Ok(m) => exists|d: Result<(), MissionOperationError>|
                    #[trigger] finish_decision(d, m, chief_id) && after_decision(
                        d,
                        r,
                        exists|o: Result<i32, RepositoryError>|
                            #[trigger] self.status_change_outcome(mission_id, chief_id, completed, o)
                                && r == lift_operation(o) && status_changed(
                                before,
                                after,
                                if completed {
                                    Effect::MissionCompleted { mission_id, chief_id }
                                } else {
                                    Effect::MissionFailed { mission_id, chief_id }
                                },
                                o is Ok,
                                mission_id,
                                if completed {
                                    MissionStatuses::Completed
                                } else {
                                    MissionStatuses::Failed
                                },
                                chief_id,
                            ),
                    ) && (d is Err ==> after == before),
            }
    }

    /// Whether `o` is an outcome of completing (`completed`) or failing the mission.
    pub open spec fn status_change_outcome(&self, mission_id: i32, chief_id: i32, completed: bool, o: Result<i32, RepositoryError>) -> bool {
        if completed {
            self.repositories().0.to_completed_outcome(mission_id, chief_id, o)
        } else {
            self.repositories().0.to_failed_outcome(mission_id, chief_id, o)
        }
    }

    /// Starts the mission for its chief. `max_crew_setting` is the text of the
    /// crew limit setting; it is read after the mission and its crew count,
    /// and the start is refused as `check_start` decides. On success every
    /// connected brawler hears that the mission is InProgress. A server
    /// without any crew limit setting cannot start missions and does not
    /// call this.
    pub fn in_progress(
        &self,
        mission_id: i32,
        chief_id: i32,
        max_crew_setting: &str,
        log: &mut EffectLog,
    ) -> (r: Result<i32, MissionOperationError>)
        ensures
            self.started(mission_id, chief_id, max_crew_setting@, old(log)@, final(log)@, r),
            r matches Err(MissionOperationError::InvalidCrewLimit) ==> parsed_i64(
                max_crew_setting@,
            ) is None,
    {
        let ghost before = log@;
        let read = self.missiom_viewing_repository.get_one(mission_id);
        let ghost g = read;
        assert(self.repositories().1.get_one_outcome(mission_id, g));
        let mission = match read {
            Ok(m) => m,
            Err(e) => {
                let r: Result<i32, MissionOperationError> = Err(MissionOperationError::Repository(e));
                assert(self.started(mission_id, chief_id, max_crew_setting@, before, log@, r));
                return r;
            },
        };
        let counted = self.missiom_viewing_repository.crew_counting(mission_id);
        let ghost c = counted;
        assert(self.repositories().1.crew_counting_outcome(mission_id, c));
        let crew_count = match counted {
            Ok(c) => c,
            Err(e) => {
                let r: Result<i32, MissionOperationError> = Err(MissionOperationError::Repository(e));
                assert(self.started(mission_id, chief_id, max_crew_setting@, before, log@, r));
                return r;
            },
        };
        let max_crew_per_mission = match parse_i64(max_crew_setting) {
            Some(v) => v,
            None => {
                let r: Result<i32, MissionOperationError> = Err(MissionOperationError::InvalidCrewLimit);
                assert(self.started(mission_id, chief_id, max_crew_setting@, before, log@, r));
                return r;
            },
        };
        let decision = check_start(&mission, crew_count, max_crew_per_mission, chief_id);
        let ghost d = decision;
        match decision {
            Ok(()) => {},
            Err(e) => {
                let r: Result<i32, MissionOperationError> = Err(e);
                assert(start_decision(d, mission, crew_count, max_crew_per_mission, chief_id) && after_decision(d, r, false));
                assert(self.started(mission_id, chief_id, max_crew_setting@, before, log@, r));
                return r;
            },
        }
        let changed = self.mission_operation_repository.to_progress(mission_id, chief_id, log);
        let ghost o = changed;
        let r: Result<i32, MissionOperationError> = match changed {
            Ok(v) => Ok(v),
            Err(e) => Err(MissionOperationError::Repository(e)),
        };
        assert(self.repositories().0.to_progress_outcome(mission_id, chief_id, o) && r == lift_operation(o));
        assert(start_decision(d, mission, crew_count, max_crew_per_mission, chief_id));
        let ghost write = Effect::MissionStarted { mission_id, chief_id };
        if r.is_ok() {
            let status = MissionStatuses::InProgress.to_text();
            let ghost text = status;
            self.realtime_hub.broadcast(
                RealtimeEvent::MissionStatusChanged { mission_id, status, brawler_id: chief_id },
                log,
            );
            assert(text@ == status_text(MissionStatuses::InProgress));
            assert(status_changed(before, log@, write, o is Ok, mission_id, MissionStatuses::InProgress, chief_id));
        } else {
            assert(status_changed(before, log@, write, o is Ok, mission_id, MissionStatuses::InProgress, chief_id));
        }
        assert(self.started(mission_id, chief_id, max_crew_setting@, before, log@, r));
        r
    }

    /// Completes or fails the mission for its chief, as `check_finish`
    /// allows, announcing the new status on success.
    fn finish(&self, mission_id: i32, chief_id: i32, completed: bool, log: &mut EffectLog) -> (r: Result<
        i32,
        MissionOperationError,
    >)
        ensures
            self.finished(mission_id, chief_id, completed, old(log)@, final(log)@, r),
            !(r matches Err(MissionOperationError::InvalidCrewLimit)),
    {
        let ghost before = log@;
        let read = self.missiom_viewing_repository.get_one(mission_id);
        let ghost g = read;
        assert(self.repositories().1.get_one_outcome(mission_id, g));
        let mission = match read {
            Ok(m) => m,
            Err(e) => {
                let r: Result<i32, MissionOperationError> = Err(MissionOperationError::Repository(e));
                assert(self.finished(mission_id, chief_id, completed, before, log@, r));
                return r;
            },
        };
        let decision = check_finish(&mission, chief_id);
        let ghost d = decision;
        match decision {
            Ok(()) => {},
            Err(e) => {
                let r: Result<i32, MissionOperationError> = Err(e);
                assert(finish_decision(d, mission, chief_id) && after_decision(d, r, false));
                assert(self.finished(mission_id, chief_id, completed, before, log@, r));
                return r;
            },
        }
        let changed = if completed {
            self.mission_operation_repository.to_completed(mission_id, chief_id, log)
        } else {
            self.mission_operation_repository.to_failed(mission_id, chief_id, log)
        };
        let ghost o = changed;
        let r: Result<i32, MissionOperationError> = match changed {
            Ok(v) => Ok(v),
            Err(e) => Err(MissionOperationError::Repository(e)),
        };
        assert(self.status_change_outcome(mission_id, chief_id, completed, o) && r == lift_operation(o));
        assert(finish_decision(d, mission, chief_id));
        let ghost write = if completed {
            Effect::MissionCompleted { mission_id, chief_id }
        } else {
            Effect::MissionFailed { mission_id, chief_id }
        };
        let new_status = if completed {
            MissionStatuses::Completed
        } else {
            MissionStatuses::Failed
        };
        if r.is_ok() {
            let status = new_status.to_text();
            let ghost text = status;
            self.realtime_hub.broadcast(
                RealtimeEvent::MissionStatusChanged { mission_id, status, brawler_id: chief_id },
                log,
            );
            assert(text@ == status_text(new_status));
            assert(status_changed(before, log@, write, o is Ok, mission_id, new_status, chief_id));
        } else {
            assert(status_changed(before, log@, write, o is Ok, mission_id, new_status, chief_id));
        }
        assert(self.finished(mission_id, chief_id, completed, before, log@, r));
        r
    }

    /// Completes the mission for its chief, as `check_finish` allows; on
    /// success every connected brawler hears that it is Completed.
    pub fn to_completed(&self, mission_id: i32, chief_id: i32, log: &mut EffectLog) -> (r: Result<
        i32,
        MissionOperationError,
    >)
        ensures
            !(r matches Err(MissionOperationError::InvalidCrewLimit)),
            self.finished(mission_id, chief_id, true, old(log)@, final(log)@, r),
    {
        self.finish(mission_id, chief_id, true, log)
    }

    /// Fails the mission for its chief, as `check_finish` allows; on success
    /// every connected brawler hears that it is Failed.
    pub fn to_failed(&self, mission_id: i32, chief_id: i32, log: &mut EffectLog) -> (r: Result<
        i32,
        MissionOperationError,
    >)
        ensures
            !(r matches Err(MissionOperationError::InvalidCrewLimit)),
            self.finished(mission_id, chief_id, false, old(log)@, final(log)@, r),
    {
        self.finish(mission_id, chief_id, false, log)
    }
}

} // verus!
