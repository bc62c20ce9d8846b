//! Where friendships are stored.
use vstd::prelude::*;
use crate::domain::effects::{Effect, EffectLog};
use crate::domain::entities::friendships::{AddFriendshipEntity, FriendshipEntity};
use super::repository_error::RepositoryError;

verus! {

/// Storage of friendships.
pub trait FriendshipRepository {
    /// Whether `r` is an outcome that `add` may give for these arguments.
    spec fn add_outcome(&self, entity: AddFriendshipEntity, r: Result<i32, RepositoryError>) -> bool;

    /// Stores a friendship request and gives its id.
    fn add(&self, entity: AddFriendshipEntity, log: &mut EffectLog) -> (r: Result<i32, RepositoryError>)
        ensures
            self.add_outcome(entity, r),
            final(log)@ == old(log)@.push(Effect::FriendshipAdded(entity)),
    ;

    /// Whether `r` is an outcome that `accept` may give for these arguments.
    spec fn accept_outcome(&self, user_id: i32, friend_id: i32, r: Result<(), RepositoryError>) -> bool;

    /// Marks the request of `user_id` to `friend_id` accepted.
    fn accept(&self, user_id: i32, friend_id: i32, log: &mut EffectLog) -> (r: Result<(), RepositoryError>)
        ensures
            self.accept_outcome(user_id, friend_id, r),
            final(log)@ == old(log)@.push((Effect::FriendshipAccepted { user_id, friend_id })),
    ;

    /// Whether `r` is an outcome that `reject` may give for these arguments.
    spec fn reject_outcome(&self, user_id: i32, friend_id: i32, r: Result<(), RepositoryError>) -> bool;

    /// Deletes the request of `user_id` to `friend_id`.
    fn reject(&self, user_id: i32, friend_id: i32, log: &mut EffectLog) -> (r: Result<(), RepositoryError>)
        ensures
            self.reject_outcome(user_id, friend_id, r),
            final(log)@ == old(log)@.push((Effect::FriendshipRejected { user_id, friend_id })),
    ;

    /// Whether `r` is an outcome that `get_friends` may give for these arguments.
    spec fn get_friends_outcome(&self, user_id: i32, r: Result<Vec<FriendshipEntity>, RepositoryError>) -> bool;

    /// The accepted friendships that `user_id` is part of, on either side.
    fn get_friends(&self, user_id: i32) -> (r: Result<Vec<FriendshipEntity>, RepositoryError>)
        ensures
            self.get_friends_outcome(user_id, r),
    ;

    /// Whether `r` is an outcome that `get_pending_requests` may give for these arguments.
    spec fn get_pending_requests_outcome(&self, user_id: i32, r: Result<Vec<FriendshipEntity>, RepositoryError>) -> bool;

    /// The pending requests addressed to `user_id`.
    fn get_pending_requests(&self, user_id: i32) -> (r: Result<Vec<FriendshipEntity>, RepositoryError>)
        ensures
            self.get_pending_requests_outcome(user_id, r),
    ;

    /// Whether `r` is an outcome that `remove` may give for these arguments.
    spec fn remove_outcome(&self, user_id1: i32, user_id2: i32, r: Result<(), RepositoryError>) -> bool;

    fn remove(&self, user_id1: i32, user_id2: i32, log: &mut EffectLog) -> (r: Result<(), RepositoryError>)
        ensures
            self.remove_outcome(user_id1, user_id2, r),
            final(log)@ == old(log)@.push((Effect::FriendshipRemoved { user_id1, user_id2 })),
    ;

    /// Whether `r` is an outcome that `check_friendship` may give for these arguments.
    spec fn check_friendship_outcome(&self, user_id1: i32, user_id2: i32, r: Result<Option<FriendshipEntity>, RepositoryError>) -> bool;

    /// The friendship between the two brawlers, in either direction, if any.
    fn check_friendship(&self, user_id1: i32, user_id2: i32) -> (r: Result<Option<FriendshipEntity>, RepositoryError>)
        ensures
            self.check_friendship_outcome(user_id1, user_id2, r),
    ;
}

} // verus!
