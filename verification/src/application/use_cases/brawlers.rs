//! Signing up, profiles, search and display names of brawlers.
use std::sync::Arc;
use vstd::prelude::*;
use crate::domain::effects::{Effect, EffectLog};
use vstd::utf8::encode_utf8;
use crate::domain::entities::brawlers::{BrawlerEntity, NewBrawlerEntity};
use crate::domain::repositories::brawlers::BrawlerRepository;
use crate::domain::repositories::repository_error::RepositoryError;
use crate::domain::value_objects::brawler_model::{
    BrawlerPaginationModel, BrawlerProfileModel, BrawlerSummaryModel, PaginationModel,
    RegisterBrawlerModel,
};
use crate::infrastructure::argon2::{PasswordError, hash, password_matches, phc_parses};
use crate::text::{copy_optional, is_blank, is_blank_str};

verus! {

/// Why a brawler request was refused.
pub enum BrawlersError {
    Repository(RepositoryError),
    /// Another brawler has the username.
    UsernameTaken,
    /// The password could not be hashed.
    Hashing(PasswordError),
    /// A display name must hold more than whitespace.
    EmptyDisplayName,
    /// A display name is at most 50 bytes long.
    DisplayNameTooLong,
}

/// The public profile of a stored brawler.
pub open spec fn is_profile_of(p: BrawlerProfileModel, b: BrawlerEntity) -> bool {
    &&& p.id == b.id
    &&& p.username@ == b.username@
    &&& p.display_name@ == b.display_name@
    &&& p.avatar_url == b.avatar_url
    &&& p.cover_url == b.cover_url
}

/// The public profile of `b`.
pub fn profile_of(b: BrawlerEntity) -> (p: BrawlerProfileModel)
    ensures
        is_profile_of(p, b),
{
    BrawlerProfileModel {
        id: b.id,
        username: b.username,
        display_name: b.display_name,
        avatar_url: b.avatar_url,
        cover_url: b.cover_url,
    }
}

/// What a lookup of a brawler that gave `f` leads to: the lookup's error,
/// or the profile of the brawler found.
pub open spec fn profile_result(
    f: Result<BrawlerEntity, RepositoryError>,
    r: Result<BrawlerProfileModel, BrawlersError>,
) -> bool {
    match f {
        Err(e) => r == Err::<BrawlerProfileModel, BrawlersError>(BrawlersError::Repository(e)),
        Ok(b) => r matches Ok(p) && is_profile_of(p, b),
    }
}

/// The search-result summary of a stored brawler.
pub open spec fn is_summary_of(s: BrawlerSummaryModel, b: BrawlerEntity) -> bool {
    &&& s.id == b.id
    &&& s.username@ == b.username@
    &&& s.display_name@ == b.display_name@
    &&& s.avatar_url == b.avatar_url
}

/// `items` are the summaries of `found`, in their order.
pub open spec fn summarize(items: Seq<BrawlerSummaryModel>, found: Seq<BrawlerEntity>) -> bool {
    &&& items.len() == found.len()
    &&& forall|i: int| 0 <= i < items.len() ==> is_summary_of(#[trigger] items[i], found[i])
}

/// The summaries of `entities`, in their order.
pub fn summaries(entities: Vec<BrawlerEntity>) -> (r: Vec<BrawlerSummaryModel>)
    ensures
        summarize(r@, entities@),
{
    let mut r: Vec<BrawlerSummaryModel> = Vec::new();
    let n = entities.len();
    let mut i: usize = 0;
    while i < n
        invariant
            n == entities@.len(),
            i <= n,
            r@.len() == i,
            forall|k: int| 0 <= k < i ==> is_summary_of(#[trigger] r@[k], entities@[k]),
        decreases n - i,
    {
        let e = &entities[i];
        r.push(
            BrawlerSummaryModel {
                id: e.id,
                username: e.username.clone(),
                display_name: e.display_name.clone(),
                avatar_url: copy_optional(&e.avatar_url),
            },
        );
        i = i + 1;
    }
    r
}

/// The page `page` of `page_size` results out of `total`, holding `items`.
pub fn pagination_of(items: Vec<BrawlerSummaryModel>, page: i64, page_size: i64, total: i64) -> (r:
    BrawlerPaginationModel)
    ensures
        r.pagination.current_page == page,
        r.pagination.page_size == page_size,
        r.pagination.length == total,
        r.items == items,
{
    BrawlerPaginationModel {
        pagination: PaginationModel { current_page: page, page_size, length: total },
        items,
    }
}

/// The number of results that come before page `page` of `page_size`
/// results, `(page - 1) * page_size`, when each step of it fits in an `i64`.
pub fn page_offset(page: i64, page_size: i64) -> (r: Option<i64>)
    ensures
        ({
            let v = (page - 1) * page_size;
            match r {
                Some(o) => o == v,
                None => page - 1 < i64::MIN || !(i64::MIN <= v <= i64::MAX),
            }
        }),
{
    let before = match page.checked_sub(1) {
        Some(b) => b,
        None => return None,
    };
    before.checked_mul(page_size)
}

/// A display name is refused when it is blank, or longer than 50 bytes in UTF-8.
pub open spec fn display_name_refusal(name: Seq<char>) -> Option<BrawlersError> {
    if is_blank(name) {
        Some(BrawlersError::EmptyDisplayName)
    } else if encode_utf8(name).len() > 50 {
        Some(BrawlersError::DisplayNameTooLong)
    } else {
        None
    }
}

/// Checks a new display name.
pub fn check_display_name(name: &str) -> (r: Result<(), BrawlersError>)
    ensures
        match display_name_refusal(name@) {
            None => r is Ok,
            Some(BrawlersError::EmptyDisplayName) => r matches Err(BrawlersError::EmptyDisplayName),
            Some(_) => r matches Err(BrawlersError::DisplayNameTooLong),
        },
{
    if is_blank_str(name) {
        return Err(BrawlersError::EmptyDisplayName);
    }
    if name.as_bytes().len() > 50 {
        return Err(BrawlersError::DisplayNameTooLong);
    }
    Ok(())
}

/// The use case for brawlers' accounts and profiles.
pub struct BrawlersUseCase<T> where T: BrawlerRepository + Send + Sync {
    brawler_repository: Arc<T>,
}

impl<T> BrawlersUseCase<T> where T: BrawlerRepository + Send + Sync {
    /// The repository that the use case works on.
    pub closed spec fn repository(&self) -> Arc<T> {
        self.brawler_repository
    }

    pub fn new(brawler_repository: Arc<T>) -> (r: Self)
        ensures
            r.repository() == brawler_repository,
    {
        BrawlersUseCase { brawler_repository }
    }

    /// What signing up `model` gives once the username was found free:
    /// when hashing the password fails (only for a password longer than
    /// 0xFFFFFFFF bytes) that error; else the brawler stored has the
    /// username, the display name and, as password, a PHC string that the
    /// password matches; a storage error is returned as it is, else the new
    /// brawler's profile, with the id given and no avatar or cover.
    pub open spec fn registered(
        &self,
        model: RegisterBrawlerModel,
        before: Seq<Effect>,
        after: Seq<Effect>,
        r: Result<BrawlerProfileModel, BrawlersError>,
    ) -> bool {
        if r matches Err(BrawlersError::Hashing(_)) {
            encode_utf8(model.password@).len() > 0xFFFF_FFFF && after == before
        } else {
            exists|entity: NewBrawlerEntity, o: Result<i32, RepositoryError>|
                #[trigger] self.repository().register_outcome(entity, o) && entity.username@
                    == model.username@ && entity.display_name@ == model.display_name@
                    && after == before.push(Effect::Registered(entity))
                    && phc_parses(entity.password@) && password_matches(
                    model.password@,
                    entity.password@,
                ) && match o {
                    Err(e) => r == Err::<BrawlerProfileModel, BrawlersError>(
                        BrawlersError::Repository(e),
                    ),
                    Ok(id) => r matches Ok(p) && p.id == id && p.username@ == model.username@
                        && p.display_name@ == model.display_name@ && p.avatar_url is None
                        && p.cover_url is None,
                }
        }
    }

    /// Signs a brawler up: the username is looked up first and, when the
    /// lookup finds a brawler, refused as taken; else see `registered`.
    pub fn register(&self, register_model: RegisterBrawlerModel, log: &mut EffectLog) -> (r: Result<
        BrawlerProfileModel,
        BrawlersError,
    >)
        ensures
            exists|u: &str, f: Result<BrawlerEntity, RepositoryError>|
                u@ == register_model.username@ && #[trigger] self.repository().find_by_username_outcome(u, f)
                    && if f is Ok {
                    r == Err::<BrawlerProfileModel, BrawlersError>(BrawlersError::UsernameTaken)
                        && final(log)@ == old(log)@
                } else {
                    self.registered(register_model, old(log)@, final(log)@, r)
                },
    {
        let ghost m0 = register_model;
        let ghost before = log@;
        let name = register_model.username.as_str();
        let found = self.brawler_repository.find_by_username(name);
        let ghost f = found;
        assert(name@ == m0.username@ && self.repository().find_by_username_outcome(name, f));
        if found.is_ok() {
            return Err(BrawlersError::UsernameTaken);
        }
        let hashed_password = match hash(register_model.password.clone()) {
            Ok(h) => h,
            Err(e) => return Err(BrawlersError::Hashing(e)),
        };
        let model = RegisterBrawlerModel {
            username: register_model.username,
            password: hashed_password,
            display_name: register_model.display_name,
        };
        let register_entity = model.to_entity();
        let ghost entity = register_entity;
        let registered = self.brawler_repository.register(register_entity, log);
        let ghost o = registered;
        assert(self.repository().register_outcome(entity, o));
        let r = match registered {
            Ok(brawler_id) => Ok(
                BrawlerProfileModel {
                    id: brawler_id,
                    username: model.username,
                    display_name: model.display_name,
                    avatar_url: None,
                    cover_url: None,
                },
            ),
            Err(e) => Err(BrawlersError::Repository(e)),
        };
        assert(self.registered(m0, before, log@, r));
        r
    }

    /// The profile of the brawler `brawler_id`: the brawler is looked up by
    /// id; a storage error is returned, else `profile_of` the brawler found.
    pub fn get_profile(&self, brawler_id: i32) -> (r: Result<BrawlerProfileModel, BrawlersError>)
        ensures
            exists|f: Result<BrawlerEntity, RepositoryError>|
                #[trigger] self.repository().find_by_id_outcome(brawler_id, f) && profile_result(f, r),
    {
        let found = self.brawler_repository.find_by_id(brawler_id);
        let ghost f = found;
        let r = match found {
            Ok(b) => Ok(profile_of(b)),
            Err(e) => Err(BrawlersError::Repository(e)),
        };
        assert(self.repository().find_by_id_outcome(brawler_id, f) && profile_result(f, r));
        r
    }

    /// The profile of the brawler named `username`: the brawler is looked up
    /// by username; a storage error is returned, else `profile_of` the
    /// brawler found.
    pub fn get_profile_by_username(&self, username: String) -> (r: Result<BrawlerProfileModel, BrawlersError>)
        ensures
            exists|u: &str, f: Result<BrawlerEntity, RepositoryError>|
                u@ == username@ && #[trigger] self.repository().find_by_username_outcome(u, f)
                    && profile_result(f, r),
    {
        let name = username.as_str();
        let found = self.brawler_repository.find_by_username(name);
        let ghost f = found;
        let r = match found {
            Ok(b) => Ok(profile_of(b)),
            Err(e) => Err(BrawlersError::Repository(e)),
        };
        assert(name@ == username@ && self.repository().find_by_username_outcome(name, f)
            && profile_result(f, r));
        r
    }

    /// Page `page` of `page_size` brawlers whose username or display name
    /// holds `query`: the storage is searched for `query`; its error is
    /// returned, else the summaries of the brawlers it found, in its order,
    /// with the page, the page size and the number of all matches.
    pub fn search(&self, query: &str, page: i64, page_size: i64) -> (r: Result<BrawlerPaginationModel, BrawlersError>)
        ensures
            exists|q: Option<String>, o: Result<(Vec<BrawlerEntity>, i64), RepositoryError>|
                #[trigger] self.repository().search_outcome(q, page, page_size, o) && (q matches Some(
                    s,
                ) && s@ == query@) && match o {
                    Err(e) => r == Err::<BrawlerPaginationModel, BrawlersError>(
                        BrawlersError::Repository(e),
                    ),
                    Ok((entities, total)) => r matches Ok(m) && summarize(m.items@, entities@)
                        && m.pagination.current_page == page && m.pagination.page_size == page_size
                        && m.pagination.length == total,
                },
    {
        let q = Some(query.to_owned());
        let ghost q0 = q;
        let searched = self.brawler_repository.search(q, page, page_size);
        let ghost o = searched;
        assert(self.repository().search_outcome(q0, page, page_size, o));
        match searched {
            Ok((entities, total)) => {
                let ghost found = entities@;
                let items = summaries(entities);
                let m = pagination_of(items, page, page_size, total);
                assert(summarize(m.items@, found));
                Ok(m)
            },
            Err(e) => Err(BrawlersError::Repository(e)),
        }
    }

    /// Whether no brawler has the username `username` yet: available exactly
    /// when the storage finds no brawler by that name (any failure to find
    /// one counts as available).
    pub fn check_username(&self, username: String) -> (r: Result<bool, BrawlersError>)
        ensures
            exists|u: &str, o: Result<BrawlerEntity, RepositoryError>|
                u@ == username@ && #[trigger] self.repository().find_by_username_outcome(u, o)
                    && r == Ok::<bool, BrawlersError>(o is Err),
    {
        let name = username.as_str();
        let found = self.brawler_repository.find_by_username(name);
        let exists = found.is_ok();
        let r: Result<bool, BrawlersError> = Ok(!exists);
        assert(name@ == username@ && self.repository().find_by_username_outcome(name, found) && r
            == Ok::<bool, BrawlersError>(found is Err));
        r
    }

    /// Changes the brawler's display name: a refused name (see
    /// `display_name_refusal`) is answered with its error before anything
    /// is stored; else the name is stored, a storage error returned, and the
    /// brawler's profile read afterwards (see `get_profile`).
    pub fn update_display_name(&self, brawler_id: i32, display_name: String, log: &mut EffectLog) -> (r:
        Result<BrawlerProfileModel, BrawlersError>)
        ensures
            display_name_refusal(display_name@) is None ==> final(log)@ == old(log)@.push(
                Effect::DisplayNameUpdated { brawler_id, display_name },
            ),
            match display_name_refusal(display_name@) {
                Some(refusal) => r == Err::<BrawlerProfileModel, BrawlersError>(refusal) && final(log)@
                    == old(log)@,
                None => exists|o: Result<(), RepositoryError>|
                    #[trigger] self.repository().update_display_name_outcome(brawler_id, display_name, o)
                        && match o {
                        Err(e) => r == Err::<BrawlerProfileModel, BrawlersError>(
                            BrawlersError::Repository(e),
                        ),
                        Ok(()) => exists|f: Result<BrawlerEntity, RepositoryError>|
                            #[trigger] self.repository().find_by_id_outcome(brawler_id, f)
                                && profile_result(f, r),
                    },
            },
    {
        let ghost d0 = display_name;
        match check_display_name(display_name.as_str()) {
            Ok(()) => {},
            Err(e) => return Err(e),
        }
        let updated = self.brawler_repository.update_display_name(brawler_id, display_name, log);
        let ghost o = updated;
        assert(self.repository().update_display_name_outcome(brawler_id, d0, o));
        match updated {
            Ok(()) => {},
            Err(e) => return Err(BrawlersError::Repository(e)),
        }
        self.get_profile(brawler_id)
    }
}

} // verus!
