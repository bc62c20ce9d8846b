//! Brawlers (the users of the service) as the repositories store them.
use vstd::prelude::*;

verus! {

/// A stored brawler.
pub struct BrawlerEntity {
    pub id: i32,
    pub username: String,
    pub password: String,
    pub display_name: String,
    pub avatar_url: Option<String>,
    pub avatar_public_id: Option<String>,
    pub cover_url: Option<String>,
    pub cover_public_id: Option<String>,
    pub bio: Option<String>,
}

/// A brawler about to be stored; `password` is the password hash.
pub struct NewBrawlerEntity {
    pub username: String,
    pub password: String,
    pub display_name: String,
}

} // verus!
