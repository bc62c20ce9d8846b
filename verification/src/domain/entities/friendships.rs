//! Friendships between brawlers. `status` is "pending" or "accepted".
use vstd::prelude::*;

verus! {

/// A stored friendship: `user_id` asked `friend_id`.
pub struct FriendshipEntity {
    pub id: i32,
    pub user_id: i32,
    pub friend_id: i32,
    pub status: String,
    pub created_at: i64,
    pub updated_at: i64,
}

/// A friendship request about to be stored.
pub struct AddFriendshipEntity {
    pub user_id: i32,
    pub friend_id: i32,
    pub status: String,
}

} // verus!
