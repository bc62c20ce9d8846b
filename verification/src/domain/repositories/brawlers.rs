//! Where brawlers are stored.
use vstd::prelude::*;
use crate::domain::effects::{Effect, EffectLog};
use crate::domain::entities::brawlers::{BrawlerEntity, NewBrawlerEntity};
use super::repository_error::RepositoryError;

verus! {

/// Storage of brawlers.
pub trait BrawlerRepository {
    /// Whether `r` is an outcome that `find_by_id` may give for these arguments.
    spec fn find_by_id_outcome(&self, id: i32, r: Result<BrawlerEntity, RepositoryError>) -> bool;

    /// The brawler with id `id`; an error when there is none.
    fn find_by_id(&self, id: i32) -> (r: Result<BrawlerEntity, RepositoryError>)
        ensures
            self.find_by_id_outcome(id, r),
    ;

    /// Whether `r` is an outcome that `find_by_username` may give for these arguments.
    spec fn find_by_username_outcome(&self, username: &str, r: Result<BrawlerEntity, RepositoryError>) -> bool;

    /// The brawler with username `username`; an error when there is none.
    fn find_by_username(&self, username: &str) -> (r: Result<BrawlerEntity, RepositoryError>)
        ensures
            self.find_by_username_outcome(username, r),
    ;

    /// Whether `r` is an outcome that `register` may give for these arguments.
    spec fn register_outcome(&self, brawler: NewBrawlerEntity, r: Result<i32, RepositoryError>) -> bool;

    /// Stores a new brawler and gives its id.
    fn register(&self, brawler: NewBrawlerEntity, log: &mut EffectLog) -> (r: Result<i32, RepositoryError>)
        ensures
            self.register_outcome(brawler, r),
            final(log)@ == old(log)@.push(Effect::Registered(brawler)),
    ;

    /// Whether `r` is an outcome that `update_avatar` may give for these arguments.
    spec fn update_avatar_outcome(&self, brawler_id: i32, avatar_url: String, avatar_public_id: String, r: Result<(), RepositoryError>) -> bool;

    fn update_avatar(&self, brawler_id: i32, avatar_url: String, avatar_public_id: String, log: &mut EffectLog) -> (r: Result<(), RepositoryError>)
        ensures
            self.update_avatar_outcome(brawler_id, avatar_url, avatar_public_id, r),
            final(log)@ == old(log)@.push((Effect::AvatarUpdated { brawler_id, avatar_url, avatar_public_id })),
    ;

    fn update_cover(&self, brawler_id: i32, cover_url: String, cover_public_id: String, log: &mut EffectLog) -> (r: Result<(), RepositoryError>)
        ensures
            final(log)@ == old(log)@.push((Effect::CoverUpdated { brawler_id, cover_url, cover_public_id })),
    ;

    /// Whether `r` is an outcome that `search` may give for these arguments.
    spec fn search_outcome(&self, query: Option<String>, page: i64, page_size: i64, r: Result<(Vec<BrawlerEntity>, i64), RepositoryError>) -> bool;

    /// The brawlers whose username or display name holds `query`, page
    /// `page` of `page_size` of them, and how many there are in all.
    fn search(&self, query: Option<String>, page: i64, page_size: i64) -> (r: Result<(Vec<BrawlerEntity>, i64), RepositoryError>)
        ensures
            self.search_outcome(query, page, page_size, r),
    ;

    /// Whether `r` is an outcome that `update_display_name` may give for these arguments.
    spec fn update_display_name_outcome(&self, brawler_id: i32, display_name: String, r: Result<(), RepositoryError>) -> bool;

    fn update_display_name(&self, brawler_id: i32, display_name: String, log: &mut EffectLog) -> (r: Result<(), RepositoryError>)
        ensures
            self.update_display_name_outcome(brawler_id, display_name, r),
            final(log)@ == old(log)@.push((Effect::DisplayNameUpdated { brawler_id, display_name })),
    ;

    fn update_bio(&self, brawler_id: i32, bio: String, log: &mut EffectLog) -> (r: Result<(), RepositoryError>)
        ensures
            final(log)@ == old(log)@.push((Effect::BioUpdated { brawler_id, bio })),
    ;

    /// Whether `r` is an outcome that `get_stats` may give for these arguments.
    spec fn get_stats_outcome(&self, brawler_id: i32, r: Result<(i64, i64), RepositoryError>) -> bool;

    /// How many missions the brawler joined, and how many of them were completed.
    fn get_stats(&self, brawler_id: i32) -> (r: Result<(i64, i64), RepositoryError>)
        ensures
            self.get_stats_outcome(brawler_id, r),
    ;
}

/// The pattern that a brawler search matches usernames and display names
/// against: the query (empty when there is none) between two `%`
/// wildcards, so that any name holding the query matches.
pub fn search_pattern(query: Option<String>) -> (p: String)
    ensures
        p@ == "%"@ + (match query {
            Some(q) => q@,
            None => Seq::<char>::empty(),
        }) + "%"@,
{
    let q = match query {
        Some(q) => q,
        None => String::new(),
    };
    let with_start = String::from_str("%").concat(q.as_str());
    with_start.concat("%")
}

} // verus!
