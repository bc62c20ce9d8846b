//! Ratings that crew members give their mission.
use std::sync::Arc;
use vstd::prelude::*;
use crate::domain::effects::{Effect, EffectLog};
use crate::domain::entities::ratings::{AddMissionRatingEntity, MissionRatingModel};
use crate::domain::repositories::crew_operation::CrewOperationRepository;
use crate::domain::repositories::rating::RatingRepository;
use crate::domain::repositories::repository_error::RepositoryError;

verus! {

/// Why a rating was refused.
pub enum RatingError {
    Repository(RepositoryError),
    /// A rating is between 1 and 5.
    OutOfRange,
    /// Only a member of the mission can rate it.
    NotAMember,
    /// A brawler rates a mission once.
    AlreadyRated,
}

/// A rating is a whole number of stars from 1 to 5.
pub open spec fn rating_in_range(rating: i32) -> bool {
    1 <= rating <= 5
}

/// Whether `rating` is a number of stars from 1 to 5.
pub fn check_rating_range(rating: i32) -> (r: Result<(), RatingError>)
    ensures
        r is Ok <==> rating_in_range(rating),
        r is Err ==> r matches Err(RatingError::OutOfRange),
{
    if rating < 1 || rating > 5 {
        Err(RatingError::OutOfRange)
    } else {
        Ok(())
    }
}

/// A brawler may rate the mission that is their current active mission, and
/// only if they have not rated it yet (`existing` is their earlier rating).
pub fn check_rating_eligibility(
    mission_id: i32,
    current_mission: Option<i32>,
    existing: Option<i32>,
) -> (r: Result<(), RatingError>)
    ensures
        current_mission != Some(mission_id) ==> r matches Err(RatingError::NotAMember),
        current_mission == Some(mission_id) && existing is Some ==> r matches Err(
            RatingError::AlreadyRated,
        ),
        r is Ok <==> current_mission == Some(mission_id) && existing is None,
{
    if current_mission != Some(mission_id) {
        return Err(RatingError::NotAMember);
    }
    if existing.is_some() {
        return Err(RatingError::AlreadyRated);
    }
    Ok(())
}

/// A storage outcome as the rating use case reports it: its value, or its
/// error as a repository error.
pub open spec fn lift_rating<T>(o: Result<T, RepositoryError>) -> Result<T, RatingError> {
    match o {
        Ok(v) => Ok(v),
        Err(e) => Err(RatingError::Repository(e)),
    }
}

/// The total number of stars that `ratings` give.
pub open spec fn stars_total(ratings: Seq<MissionRatingModel>) -> int
    decreases ratings.len(),
{
    if ratings.len() == 0 {
        0
    } else {
        stars_total(ratings.drop_last()) + ratings.last().rating
    }
}

/// The total number of stars that `ratings` give; the mean rating is this
/// total over their number. An `i128` holds the total of any number of
/// `i32` ratings that fits in memory.
pub fn rating_total(ratings: &Vec<MissionRatingModel>) -> (t: i128)
    ensures
        t == stars_total(ratings@),
{
    let mut t: i128 = 0;
    let n = ratings.len();
    let mut i: usize = 0;
    while i < n
        invariant
            n == ratings@.len(),
            i <= n,
            t == stars_total(ratings@.subrange(0, i as int)),
            -(i * 2147483648) <= t <= i * 2147483647,
        decreases n - i,
    {
        proof {
            assert(ratings@.subrange(0, i + 1).drop_last() =~= ratings@.subrange(0, i as int));
        }
        t = t + ratings[i].rating as i128;
        i = i + 1;
    }
    proof {
        assert(ratings@.subrange(0, n as int) =~= ratings@);
    }
    t
}

/// The use case for rating missions.
pub struct RatingUseCase<T1, T2> where
    T1: RatingRepository + Send + Sync,
    T2: CrewOperationRepository + Send + Sync,
 {
    rating_repository: Arc<T1>,
    crew_operation_repository: Arc<T2>,
}

impl<T1, T2> RatingUseCase<T1, T2> where
    T1: RatingRepository + Send + Sync,
    T2: CrewOperationRepository + Send + Sync,
 {
    /// The repositories that the use case works on.
    pub closed spec fn repositories(&self) -> (Arc<T1>, Arc<T2>) {
        (self.rating_repository, self.crew_operation_repository)
    }

    pub fn new(rating_repository: Arc<T1>, crew_operation_repository: Arc<T2>) -> (r: Self)
        ensures
            r.repositories() == (rating_repository, crew_operation_repository),
    {
        RatingUseCase { rating_repository, crew_operation_repository }
    }

    /// What rating `mission_id` for `brawler_id` gives once the range was
    /// checked: the brawler's current mission is read (its error returned);
    /// unless it is `mission_id` the brawler is refused as not a member; then
    /// the brawler's earlier rating of the mission is read (its error
    /// returned); when there is one the rating is refused; else the rating
    /// of those four values is stored and the storage's outcome returned.
    pub open spec fn rated(
        &self,
        mission_id: i32,
        brawler_id: i32,
        rating: i32,
        comment: Option<String>,
        before: Seq<Effect>,
        after: Seq<Effect>,
        r: Result<i32, RatingError>,
    ) -> bool {
        exists|c: Result<Option<i32>, RepositoryError>|
            #[trigger] self.repositories().1.get_current_mission_outcome(brawler_id, c) && match c {
                Err(e) => r == Err::<i32, RatingError>(RatingError::Repository(e)) && after == before,
                Ok(current) => if current != Some(mission_id) {
                    r == Err::<i32, RatingError>(RatingError::NotAMember) && after == before
                } else {
                    exists|x: Result<Option<i32>, RepositoryError>|
                        #[trigger] self.repositories().0.get_rating_by_mission_and_brawler_outcome(
                            mission_id,
                            brawler_id,
                            x,
                        ) && match x {
                            Err(e) => r == Err::<i32, RatingError>(RatingError::Repository(e)) && after
                                == before,
                            Ok(Some(_)) => r == Err::<i32, RatingError>(RatingError::AlreadyRated)
                                && after == before,
                            Ok(None) => exists|o: Result<i32, RepositoryError>|
                                #[trigger] self.repositories().0.add_rating_outcome(
                                    AddMissionRatingEntity { mission_id, brawler_id, rating, comment },
                                    o,
                                ) && r == lift_rating(o) && after == before.push(
                                    Effect::RatingAdded(
                                        AddMissionRatingEntity { mission_id, brawler_id, rating, comment },
                                    ),
                                ),
                        }
                },
            }
    }

    /// Rates the mission for `brawler_id`: a rating out of range is refused
    /// before anything is read; else see `rated`.
    pub fn add_rating(
        &self,
        mission_id: i32,
        brawler_id: i32,
        rating: i32,
        comment: Option<String>,
        log: &mut EffectLog,
    ) -> (r: Result<i32, RatingError>)
        ensures
            if rating_in_range(rating) {
                self.rated(mission_id, brawler_id, rating, comment, old(log)@, final(log)@, r)
            } else {
                r == Err::<i32, RatingError>(RatingError::OutOfRange) && final(log)@ == old(log)@
            },
    {
        let ghost comment0 = comment;
        match check_rating_range(rating) {
            Ok(()) => {},
            Err(_) => return Err(RatingError::OutOfRange),
        }
        let c = self.crew_operation_repository.get_current_mission(brawler_id);
        let ghost c0 = c;
        assert(self.repositories().1.get_current_mission_outcome(brawler_id, c0));
        let current_mission = match c {
            Ok(m) => m,
            Err(e) => return Err(RatingError::Repository(e)),
        };
        if current_mission != Some(mission_id) {
            return Err(RatingError::NotAMember);
        }
        let x = self.rating_repository.get_rating_by_mission_and_brawler(mission_id, brawler_id);
        let ghost x0 = x;
        assert(self.repositories().0.get_rating_by_mission_and_brawler_outcome(
            mission_id,
            brawler_id,
            x0,
        ));
        let existing = match x {
            Ok(v) => v,
            Err(e) => return Err(RatingError::Repository(e)),
        };
        match check_rating_eligibility(mission_id, current_mission, existing) {
            Ok(()) => {},
            Err(_) => return Err(RatingError::AlreadyRated),
        }
        let entity = AddMissionRatingEntity { mission_id, brawler_id, rating, comment };
        let ghost entity0 = entity;
        let o = self.rating_repository.add_rating(entity, log);
        let ghost o0 = o;
        let r = match o {
            Ok(id) => Ok(id),
            Err(e) => Err(RatingError::Repository(e)),
        };
        assert(self.repositories().0.add_rating_outcome(entity0, o0) && r == lift_rating(o0));
        r
    }

    /// The mission's ratings, newest first: what the storage gives for the
    /// mission.
    pub fn get_mission_ratings(&self, mission_id: i32) -> (r: Result<Vec<MissionRatingModel>, RatingError>)
        ensures
            r is Err ==> r matches Err(RatingError::Repository(_)),
            exists|o: Result<Vec<MissionRatingModel>, RepositoryError>|
                #[trigger] self.repositories().0.get_ratings_by_mission_id_outcome(mission_id, o)
                    && r == lift_rating(o),
    {
        let o = self.rating_repository.get_ratings_by_mission_id(mission_id);
        let ghost outcome = o;
        let r = match o {
            Ok(v) => Ok(v),
            Err(e) => Err(RatingError::Repository(e)),
        };
        assert(self.repositories().0.get_ratings_by_mission_id_outcome(mission_id, outcome) && r
            == lift_rating(outcome));
        r
    }

    /// The rating that `brawler_id` gave the mission, if any: what the
    /// storage gives for the two.
    pub fn get_user_rating(&self, mission_id: i32, brawler_id: i32) -> (r: Result<Option<i32>, RatingError>)
        ensures
            r is Err ==> r matches Err(RatingError::Repository(_)),
            exists|o: Result<Option<i32>, RepositoryError>|
                #[trigger] self.repositories().0.get_rating_by_mission_and_brawler_outcome(
                    mission_id,
                    brawler_id,
                    o,
                ) && r == lift_rating(o),
    {
        let o = self.rating_repository.get_rating_by_mission_and_brawler(mission_id, brawler_id);
        let ghost outcome = o;
        let r = match o {
            Ok(v) => Ok(v),
            Err(e) => Err(RatingError::Repository(e)),
        };
        assert(self.repositories().0.get_rating_by_mission_and_brawler_outcome(
            mission_id,
            brawler_id,
            outcome,
        ) && r == lift_rating(outcome));
        r
    }
}

} // verus!
