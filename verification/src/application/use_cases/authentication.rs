//! Logging in with a password or through LINE.
use std::sync::Arc;
use vstd::prelude::*;
use crate::domain::effects::{Effect, EffectLog};
use crate::domain::entities::brawlers::{BrawlerEntity, NewBrawlerEntity};
use crate::domain::repositories::brawlers::BrawlerRepository;
use crate::domain::repositories::repository_error::RepositoryError;
use crate::domain::value_objects::brawler_model::BrawlerProfileModel;
use crate::infrastructure::argon2::{PasswordError, hash, lemma_utf8_len_bound, password_matches, phc_parses, verify};
use crate::infrastructure::identifiers::{is_uuid_text, new_uuid_v4_text};
use crate::infrastructure::line::LineProfileResponse;
use crate::application::use_cases::brawlers::{is_profile_of, profile_of};

verus! {

/// A login request.
pub struct LoginModel {
    pub username: String,
    pub password: String,
}

/// A brawler who logged in: their profile and bio, how many missions they
/// joined and how many of those were completed.
pub struct AuthenticatedBrawler {
    pub profile: BrawlerProfileModel,
    pub bio: Option<String>,
    pub joined_count: i64,
    pub completed_count: i64,
}

/// Why a login was refused.
pub enum AuthenticationError {
    Repository(RepositoryError),
    /// The password is not the brawler's.
    InvalidCredentials,
    /// A password could not be hashed.
    Hashing(PasswordError),
}

/// The username under which a LINE user is known here.
pub open spec fn line_username(line_user_id: Seq<char>) -> Seq<char> {
    "line_"@ + line_user_id
}

/// The username for the LINE user `line_user_id`.
pub fn line_username_for(line_user_id: &str) -> (r: String)
    ensures
        r@ == line_username(line_user_id@),
{
    String::from_str("line_").concat(line_user_id)
}

/// Two LINE users never share a username here.
pub proof fn lemma_line_usernames_distinct(a: Seq<char>, b: Seq<char>)
    ensures
        line_username(a) == line_username(b) ==> a == b,
{
    if line_username(a) == line_username(b) {
        let p = "line_"@;
        assert(a =~= line_username(a).subrange(p.len() as int, line_username(a).len() as int));
        assert(b =~= line_username(b).subrange(p.len() as int, line_username(b).len() as int));
    }
}

/// The password set for a brawler created through LINE: "line_pwd_" followed
/// by the text of a random UUID; nobody is told it.
pub fn line_random_password() -> (r: String)
    ensures
        exists|t: Seq<char>| is_uuid_text(t) && r@ == "line_pwd_"@ + t,
{
    let t = new_uuid_v4_text();
    String::from_str("line_pwd_").concat(t.as_str())
}

/// The logged-in brawler `b` with the counts `joined` and `completed`.
pub fn authenticated(b: BrawlerEntity, joined: i64, completed: i64) -> (r: AuthenticatedBrawler)
    ensures
        is_profile_of(r.profile, b),
        r.bio == b.bio,
        r.joined_count == joined,
        r.completed_count == completed,
{
    let bio = b.bio.clone();
    let profile = profile_of(b);
    AuthenticatedBrawler { profile, bio, joined_count: joined, completed_count: completed }
}

/// A login with `password` succeeds for a brawler whose stored password is
/// `stored` exactly when the password matches it.
pub fn check_credentials(password: String, stored: String) -> (r: Result<(), AuthenticationError>)
    ensures
        r is Ok <==> password_matches(password@, stored@),
        r is Err ==> r matches Err(AuthenticationError::InvalidCredentials),
{
    match verify(password, stored) {
        Ok(true) => Ok(()),
        _ => Err(AuthenticationError::InvalidCredentials),
    }
}

/// The use case for logging in.
pub struct AuthenticationUseCase<T> where T: BrawlerRepository + Send + Sync {
    brawler_repository: Arc<T>,
}

impl<T> AuthenticationUseCase<T> where T: BrawlerRepository + Send + Sync {
    /// The repository that the use case works on.
    pub closed spec fn repository(&self) -> Arc<T> {
        self.brawler_repository
    }

    pub fn new(brawler_repository: Arc<T>) -> (r: Self)
        ensures
            r.repository() == brawler_repository,
    {
        AuthenticationUseCase { brawler_repository }
    }

    /// What the login of the stored brawler `b` gives, once the storage's
    /// statistics of `b.id` are read: that error, or `b`'s profile and bio
    /// with the counts read.
    pub open spec fn stats_result(&self, b: BrawlerEntity, r: Result<AuthenticatedBrawler, AuthenticationError>) -> bool {
        exists|s: Result<(i64, i64), RepositoryError>|
            #[trigger] self.repository().get_stats_outcome(b.id, s) && match s {
                Err(e) => r == Err::<AuthenticatedBrawler, AuthenticationError>(
                    AuthenticationError::Repository(e),
                ),
                Ok((joined, completed)) => r matches Ok(a) && is_profile_of(a.profile, b) && a.bio
                    == b.bio && a.joined_count == joined && a.completed_count == completed,
            }
    }

    /// What a lookup of a brawler by username that gave `f` leads to: the
    /// lookup's error, or the login of the brawler found.
    pub open spec fn found_result(
        &self,
        f: Result<BrawlerEntity, RepositoryError>,
        r: Result<AuthenticatedBrawler, AuthenticationError>,
    ) -> bool {
        match f {
            Err(e) => r == Err::<AuthenticatedBrawler, AuthenticationError>(
                AuthenticationError::Repository(e),
            ),
            Ok(b) => self.stats_result(b, r),
        }
    }

    /// What the sign-up of the LINE user of `profile` gives: the brawler
    /// stored is named `line_username` of the LINE user id, has the LINE
    /// display name and, as password, the Argon2 hash of "line_pwd_" and a
    /// random UUID; a storage error is returned as it is; else the LINE
    /// picture, when there is one, is set as avatar (whatever that gives),
    /// and the brawler is looked up again by username and logged in.
    pub open spec fn line_signed_up(
        &self,
        profile: LineProfileResponse,
        before: Seq<Effect>,
        after: Seq<Effect>,
        r: Result<AuthenticatedBrawler, AuthenticationError>,
    ) -> bool {
        exists|entity: NewBrawlerEntity, o: Result<i32, RepositoryError>|
            #[trigger] self.repository().register_outcome(entity, o) && entity.username@
                == line_username(profile.user_id@) && entity.display_name@
                == profile.display_name@ && phc_parses(entity.password@) && (exists|t: Seq<char>|
                is_uuid_text(t) && #[trigger] password_matches("line_pwd_"@ + t, entity.password@))
                && match o {
                Err(e) => r == Err::<AuthenticatedBrawler, AuthenticationError>(
                    AuthenticationError::Repository(e),
                ) && after == before.push(Effect::Registered(entity)),
                Ok(id) => (match profile.picture_url {
                    Some(picture) => exists|public_id: String, a: Result<(), RepositoryError>|
                        public_id@ == Seq::<char>::empty()
                            && #[trigger] self.repository().update_avatar_outcome(id, picture, public_id, a)
                            && after == before.push(Effect::Registered(entity)).push(
                            Effect::AvatarUpdated { brawler_id: id, avatar_url: picture, avatar_public_id: public_id },
                        ),
                    None => after == before.push(Effect::Registered(entity)),
                }) && exists|u: &str, g: Result<BrawlerEntity, RepositoryError>|
                    u@ == line_username(profile.user_id@)
                        && #[trigger] self.repository().find_by_username_outcome(u, g)
                        && self.found_result(g, r),
            }
    }

    fn with_stats(&self, b: BrawlerEntity) -> (r: Result<AuthenticatedBrawler, AuthenticationError>)
        ensures
            self.stats_result(b, r),
    {
        let ghost b0 = b;
        let s = self.brawler_repository.get_stats(b.id);
        let ghost s0 = s;
        let r = match s {
            Ok((joined_count, completed_count)) => Ok(authenticated(b, joined_count, completed_count)),
            Err(e) => Err(AuthenticationError::Repository(e)),
        };
        assert(self.repository().get_stats_outcome(b0.id, s0));
        r
    }

    /// Logs in with a username and password: the brawler is looked up by
    /// the username; a storage error (also when there is no such brawler) is
    /// returned; a password that does not match the stored one (see
    /// `password_matches`) is refused; else the brawler is logged in with
    /// their statistics.
    pub fn login(&self, login_model: LoginModel) -> (r: Result<AuthenticatedBrawler, AuthenticationError>)
        ensures
            exists|u: &str, f: Result<BrawlerEntity, RepositoryError>|
                u@ == login_model.username@ && #[trigger] self.repository().find_by_username_outcome(u, f)
                    && match f {
                    Err(e) => r == Err::<AuthenticatedBrawler, AuthenticationError>(
                        AuthenticationError::Repository(e),
                    ),
                    Ok(b) => if password_matches(login_model.password@, b.password@) {
                        self.stats_result(b, r)
                    } else {
                        r == Err::<AuthenticatedBrawler, AuthenticationError>(
                            AuthenticationError::InvalidCredentials,
                        )
                    },
                },
    {
        let name = login_model.username.as_str();
        let found = self.brawler_repository.find_by_username(name);
        let ghost f = found;
        assert(name@ == login_model.username@ && self.repository().find_by_username_outcome(name, f));
        let brawler_entity = match found {
            Ok(b) => b,
            Err(e) => return Err(AuthenticationError::Repository(e)),
        };
        match check_credentials(login_model.password, brawler_entity.password.clone()) {
            Ok(()) => {},
            Err(_) => return Err(AuthenticationError::InvalidCredentials),
        }
        self.with_stats(brawler_entity)
    }

    /// Logs in the LINE user of `profile`: the brawler named
    /// `line_username` of the LINE user id is looked up; when the lookup
    /// fails the LINE user is signed up first (see `line_signed_up`).
    pub fn line_login(&self, profile: LineProfileResponse, log: &mut EffectLog) -> (r: Result<
        AuthenticatedBrawler,
        AuthenticationError,
    >)
        ensures
            exists|u: &str, f: Result<BrawlerEntity, RepositoryError>|
                u@ == line_username(profile.user_id@)
                    && #[trigger] self.repository().find_by_username_outcome(u, f) && match f {
                    Ok(b) => self.stats_result(b, r) && final(log)@ == old(log)@,
                    Err(_) => self.line_signed_up(profile, old(log)@, final(log)@, r),
                },
    {
        let ghost p0 = profile;
        let username = line_username_for(profile.user_id.as_str());
        let name = username.as_str();
        let found = self.brawler_repository.find_by_username(name);
        let ghost f = found;
        assert(name@ == line_username(p0.user_id@) && self.repository().find_by_username_outcome(
            name,
            f,
        ));
        match found {
            Ok(existing) => self.with_stats(existing),
            Err(_) => self.line_sign_up(profile, username, log),
        }
    }

    fn line_sign_up(&self, profile: LineProfileResponse, username: String, log: &mut EffectLog) -> (r:
        Result<AuthenticatedBrawler, AuthenticationError>)
        requires
            username@ == line_username(profile.user_id@),
        ensures
            self.line_signed_up(profile, old(log)@, final(log)@, r),
    {
        let ghost p0 = profile;
        let ghost before = log@;
        let random_password = line_random_password();
        let ghost t = choose|t: Seq<char>| is_uuid_text(t) && random_password@ == "line_pwd_"@ + t;
        proof {
            reveal_strlit("line_pwd_");
            lemma_utf8_len_bound(random_password@);
        }
        let hashed_password = match hash(random_password) {
            Ok(h) => h,
            Err(e) => return Err(AuthenticationError::Hashing(e)),
        };
        let new_brawler = NewBrawlerEntity {
            username: username.clone(),
            password: hashed_password,
            display_name: profile.display_name,
        };
        let ghost entity = new_brawler;
        assert(password_matches("line_pwd_"@ + t, entity.password@));
        let registered = self.brawler_repository.register(new_brawler, log);
        let ghost o = registered;
        assert(self.repository().register_outcome(entity, o));
        let brawler_id = match registered {
            Ok(id) => id,
            Err(e) => {
                let r = Err(AuthenticationError::Repository(e));
                assert(self.line_signed_up(p0, before, log@, r));
                return r;
            },
        };
        if let Some(picture_url) = profile.picture_url {
            let ghost pic = picture_url;
            let public_id = String::new();
            let ghost pid = public_id;
            let a = self.brawler_repository.update_avatar(brawler_id, picture_url, public_id, log);
            assert(pid@ == Seq::<char>::empty() && self.repository().update_avatar_outcome(
                brawler_id,
                pic,
                pid,
                a,
            ));
        }
        let name = username.as_str();
        let again = self.brawler_repository.find_by_username(name);
        let ghost g = again;
        assert(name@ == line_username(p0.user_id@) && self.repository().find_by_username_outcome(
            name,
            g,
        ));
        let r = match again {
            Ok(b) => self.with_stats(b),
            Err(e) => Err(AuthenticationError::Repository(e)),
        };
        assert(self.found_result(g, r));
        assert(self.line_signed_up(p0, before, log@, r));
        r
    }

    /// The logged-in brawler `brawler_id`: the brawler is looked up by id; a
    /// storage error is returned; else the brawler is logged in with their
    /// statistics.
    pub fn get_me(&self, brawler_id: i32) -> (r: Result<AuthenticatedBrawler, AuthenticationError>)
        ensures
            exists|f: Result<BrawlerEntity, RepositoryError>|
                #[trigger] self.repository().find_by_id_outcome(brawler_id, f) && self.found_result(f, r),
    {
        let found = self.brawler_repository.find_by_id(brawler_id);
        let ghost f = found;
        let r = match found {
            Ok(b) => self.with_stats(b),
            Err(e) => Err(AuthenticationError::Repository(e)),
        };
        assert(self.repository().find_by_id_outcome(brawler_id, f) && self.found_result(f, r));
        r
    }
}

} // verus!
