//! What the service tells about brawlers.
use vstd::prelude::*;
use crate::domain::entities::brawlers::NewBrawlerEntity;

verus! {

/// A sign-up request.
pub struct RegisterBrawlerModel {
    pub username: String,
    pub password: String,
    pub display_name: String,
}

impl RegisterBrawlerModel {
    /// The brawler to store for this request, field for field.
    pub fn to_entity(&self) -> (r: NewBrawlerEntity)
        ensures
            r.username@ == self.username@,
            r.password@ == self.password@,
            r.display_name@ == self.display_name@,
    {
        NewBrawlerEntity {
            username: self.username.clone(),
            password: self.password.clone(),
            display_name: self.display_name.clone(),
        }
    }
}

/// A crew member of a mission with the counts of missions joined and completed.
pub struct BrawlerModel {
    pub brawler_id: i32,
    pub display_name: String,
    pub username: String,
    pub avatar_url: String,
    pub mission_success_count: i64,
    pub mission_joined_count: i64,
}

/// A brawler as search results list it.
pub struct BrawlerSummaryModel {
    pub id: i32,
    pub username: String,
    pub display_name: String,
    pub avatar_url: Option<String>,
}

/// A brawler's public profile.
pub struct BrawlerProfileModel {
    pub id: i32,
    pub username: String,
    pub display_name: String,
    pub avatar_url: Option<String>,
    pub cover_url: Option<String>,
}

/// The page of results that was asked for and the number of all results.
pub struct PaginationModel {
    pub current_page: i64,
    pub page_size: i64,
    pub length: i64,
}

/// A page of brawler search results.
pub struct BrawlerPaginationModel {
    pub pagination: PaginationModel,
    pub items: Vec<BrawlerSummaryModel>,
}

} // verus!
