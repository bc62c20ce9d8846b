//! Where crew memberships are stored.
use vstd::prelude::*;
use crate::domain::effects::{Effect, EffectLog};
use crate::domain::entities::missions::CrewMemberShips;
use super::repository_error::RepositoryError;

verus! {

/// Storage of crew memberships.
pub trait CrewOperationRepository {
    /// Whether `r` is an outcome that `join` may give for these arguments.
    spec fn join_outcome(&self, crew_member_ships: CrewMemberShips, r: Result<(), RepositoryError>) -> bool;

    fn join(&self, crew_member_ships: CrewMemberShips, log: &mut EffectLog) -> (r: Result<(), RepositoryError>)
        ensures
            self.join_outcome(crew_member_ships, r),
            final(log)@ == old(log)@.push(Effect::Joined(crew_member_ships)),
    ;

    fn leave(&self, crew_member_ships: CrewMemberShips, log: &mut EffectLog) -> (r: Result<(), RepositoryError>)
        ensures
            final(log)@ == old(log)@.push(Effect::Left(crew_member_ships)),
    ;

    /// Whether `r` is an outcome that `get_current_mission` may give for these arguments.
    spec fn get_current_mission_outcome(&self, brawler_id: i32, r: Result<Option<i32>, RepositoryError>) -> bool;

    /// The active (Open or InProgress, not deleted) mission in which the brawler
    /// is a crew member, or else the one that the brawler leads, if any.
    fn get_current_mission(&self, brawler_id: i32) -> (r: Result<Option<i32>, RepositoryError>)
        ensures
            self.get_current_mission_outcome(brawler_id, r),
    ;

    /// Whether `r` is an outcome that `is_member` may give for these arguments.
    spec fn is_member_outcome(&self, mission_id: i32, brawler_id: i32, r: Result<bool, RepositoryError>) -> bool;

    /// Whether the brawler is in the mission's crew.
    fn is_member(&self, mission_id: i32, brawler_id: i32) -> (r: Result<bool, RepositoryError>)
        ensures
            self.is_member_outcome(mission_id, brawler_id, r),
    ;
}

/// A brawler's current mission: the active mission whose crew they are in
/// (`as_crew`), and only when there is none, the active mission they lead
/// (`as_chief`).
pub fn current_mission_from(as_crew: Option<i32>, as_chief: Option<i32>) -> (r: Option<i32>)
    ensures
        r == (if as_crew is Some {
            as_crew
        } else {
            as_chief
        }),
{
    match as_crew {
        Some(id) => Some(id),
        None => as_chief,
    }
}

} // verus!
