use std::sync::{Arc, Mutex};

use server::domain::effects::EffectLog;
use server::application::use_cases::authentication::{
    check_credentials, line_random_password, line_username_for, AuthenticationError,
    AuthenticationUseCase, LoginModel,
};
use server::application::use_cases::brawlers::{
    check_display_name, page_offset, BrawlersError, BrawlersUseCase,
};
use server::config::config_loader::{jwt_env, resolve, ConfigError, EnvironmentVariables};
use server::domain::entities::brawlers::{BrawlerEntity, NewBrawlerEntity};
use server::domain::repositories::brawlers::BrawlerRepository;
use server::domain::repositories::repository_error::RepositoryError;
use server::domain::value_objects::brawler_model::RegisterBrawlerModel;
use server::infrastructure::argon2::{hash, verify};
use server::infrastructure::http::auth_token::extract_token;
use server::infrastructure::http::line_redirects::{
    line_authorize_redirect, login_failure_redirect, login_success_redirect, read_line_callback,
    LineCallback,
};
use server::infrastructure::http::requests::{search_parameters, LineCallbackQuery, SearchQuery};
use server::infrastructure::line::LineProfileResponse;

#[test]
fn a_hashed_password_verifies_and_others_do_not() {
    let stored = hash("hunter2".to_string()).ok().unwrap();
    assert!(stored.starts_with("$argon2"));
    assert_ne!(stored, "hunter2");
    assert_eq!(verify("hunter2".to_string(), stored.clone()).ok(), Some(true));
    assert_eq!(verify("hunter3".to_string(), stored).ok(), Some(false));
}

#[test]
fn legacy_plain_passwords_compare_as_text() {
    assert_eq!(verify("arthur545".to_string(), "arthur545".to_string()).ok(), Some(true));
    assert_eq!(verify("arthur".to_string(), "arthur545".to_string()).ok(), Some(false));
    assert!(check_credentials("toey545".to_string(), "toey545".to_string()).is_ok());
    assert!(matches!(check_credentials("x".to_string(), "toey545".to_string()), Err(AuthenticationError::InvalidCredentials)));
}

#[test]
fn tokens_come_from_the_header_first() {
    assert_eq!(extract_token(Some("Bearer abc"), Some("token=zzz")), Some("abc".to_string()));
    assert_eq!(extract_token(Some("Basic abc"), Some("a=1&token=zzz&b=2")), Some("zzz".to_string()));
    assert_eq!(extract_token(None, Some("token=")), Some(String::new()));
    assert_eq!(extract_token(None, Some("a=1&b=2")), None);
    assert_eq!(extract_token(None, Some("mytoken=1")), None);
    assert_eq!(extract_token(Some("bearer abc"), None), None);
    assert_eq!(extract_token(None, None), None);
}

#[test]
fn line_addresses() {
    assert_eq!(login_success_redirect("https://app.example", "T1"), "https://app.example/login?token=T1");
    assert_eq!(login_success_redirect("https://app.example/", "T1"), "https://app.example/login?token=T1");
    assert_eq!(
        login_failure_redirect("https://app.example", "bad code: é"),
        "https://app.example/login?error=line_auth_failed&detail=bad%20code%3A%20%C3%A9"
    );
    let url = line_authorize_redirect("12345", "https://api.example/cb");
    assert!(url.starts_with(
        "https://access.line.me/oauth2/v2.1/authorize?response_type=code&client_id=12345&redirect_uri=https%3A%2F%2Fapi.example%2Fcb&state="
    ));
    assert!(url.ends_with("&scope=profile%20openid"));
}

#[test]
fn line_callbacks() {
    let q = |code: Option<&str>, error: Option<&str>| LineCallbackQuery {
        code: code.map(|s| s.to_string()),
        state: None,
        error: error.map(|s| s.to_string()),
        error_description: Some("why".to_string()),
    };
    assert!(matches!(read_line_callback(q(Some("c"), Some("denied"))), LineCallback::Failed { .. }));
    assert!(matches!(read_line_callback(q(None, None)), LineCallback::NoCode));
    match read_line_callback(q(Some("c"), None)) {
        LineCallback::Login { code } => assert_eq!(code, "c"),
        _ => panic!("expected Login"),
    }
}

#[test]
fn line_usernames_and_passwords() {
    assert_eq!(line_username_for("U42"), "line_U42");
    let p = line_random_password();
    assert!(p.starts_with("line_pwd_"));
    assert_eq!(p.len(), 9 + 36);
}

#[test]
fn search_defaults() {
    let (q, p, s) = search_parameters(SearchQuery { query: None, current_page: None, page_size: None });
    assert_eq!((q.as_str(), p, s), ("", 1, 10));
    let (q, p, s) = search_parameters(SearchQuery { query: Some("bo".into()), current_page: Some(3), page_size: Some(5) });
    assert_eq!((q.as_str(), p, s), ("bo", 3, 5));
    assert_eq!(page_offset(3, 5), Some(10));
    assert_eq!(page_offset(1, 10), Some(0));
    assert_eq!(page_offset(i64::MIN, 1), None);
    assert_eq!(page_offset(i64::MAX, 3), None);
}

#[test]
fn display_names() {
    assert!(check_display_name("Bo").is_ok());
    assert!(matches!(check_display_name("  "), Err(BrawlersError::EmptyDisplayName)));
    assert!(matches!(check_display_name(&"x".repeat(51)), Err(BrawlersError::DisplayNameTooLong)));
    assert!(check_display_name(&"x".repeat(50)).is_ok());
    assert!(matches!(check_display_name(&"é".repeat(26)), Err(BrawlersError::DisplayNameTooLong)));
}

fn vars() -> EnvironmentVariables {
    EnvironmentVariables {
        port: None,
        server_port: None,
        server_body_limit: None,
        server_timeout: None,
        database_url: None,
        jwt_user_secret: None,
        jwt_user_refresh_secret: None,
        max_crew_per_mission: None,
    }
}

#[test]
fn settings_and_their_defaults() {
    let c = resolve(vars()).ok().unwrap();
    assert_eq!((c.server.port, c.server.body_limit, c.server.timeout), (80, 10485760, 30));
    assert_eq!(c.database.url, "");
    assert_eq!(c.secret, "default_secret_for_railway");
    assert_eq!(c.refresh_secret, "default_refresh_secret");
    assert_eq!(c.max_crew_per_mission, 5);
    let c = resolve(EnvironmentVariables { server_port: Some("8080".into()), ..vars() }).ok().unwrap();
    assert_eq!(c.server.port, 8080);
    let c = resolve(EnvironmentVariables { port: Some("3000".into()), server_port: Some("8080".into()), ..vars() }).ok().unwrap();
    assert_eq!(c.server.port, 3000);
    assert!(matches!(resolve(EnvironmentVariables { port: Some("70000".into()), ..vars() }), Err(ConfigError::Port)));
    assert!(matches!(resolve(EnvironmentVariables { server_timeout: Some("-1".into()), ..vars() }), Err(ConfigError::Timeout)));
    assert!(matches!(resolve(EnvironmentVariables { server_body_limit: Some("1MB".into()), ..vars() }), Err(ConfigError::BodyLimit)));
    assert!(matches!(resolve(EnvironmentVariables { max_crew_per_mission: Some("four".into()), ..vars() }), Err(ConfigError::MaxCrewPerMission)));
    let j = jwt_env(None, None).ok().unwrap();
    assert_eq!((j.secret.as_str(), j.life_time_days), ("default_secret_for_railway", 7));
    assert!(matches!(jwt_env(None, Some("week".into())), Err(ConfigError::JwtLifeTimeDays)));
}

struct Brawlers {
    rows: Mutex<Vec<BrawlerEntity>>,
    avatars: Mutex<Vec<(i32, String)>>,
}

fn row(id: i32, username: &str, password: &str, display_name: &str) -> BrawlerEntity {
    BrawlerEntity {
        id,
        username: username.to_string(),
        password: password.to_string(),
        display_name: display_name.to_string(),
        avatar_url: None,
        avatar_public_id: None,
        cover_url: None,
        cover_public_id: None,
        bio: None,
    }
}

fn not_found() -> RepositoryError {
    RepositoryError { message: "not found".to_string() }
}

impl BrawlerRepository for Brawlers {
    // Any outcome is possible.
    fn register_outcome(&self, _brawler: NewBrawlerEntity, _r: Result<i32, RepositoryError>) -> bool {
        true
    }

    fn update_avatar_outcome(&self, _brawler_id: i32, _avatar_url: String, _avatar_public_id: String, _r: Result<(), RepositoryError>) -> bool {
        true
    }

    fn search_outcome(&self, _query: Option<String>, _page: i64, _page_size: i64, _r: Result<(Vec<BrawlerEntity>, i64), RepositoryError>) -> bool {
        true
    }

    fn update_display_name_outcome(&self, _brawler_id: i32, _display_name: String, _r: Result<(), RepositoryError>) -> bool {
        true
    }

    fn get_stats_outcome(&self, _brawler_id: i32, _r: Result<(i64, i64), RepositoryError>) -> bool {
        true
    }

    fn find_by_id_outcome(&self, _id: i32, _r: Result<BrawlerEntity, RepositoryError>) -> bool {
        true
    }

    fn find_by_username_outcome(&self, _username: &str, _r: Result<BrawlerEntity, RepositoryError>) -> bool {
        true
    }

    fn find_by_id(&self, id: i32) -> Result<BrawlerEntity, RepositoryError> {
        self.rows.lock().unwrap().iter().find(|b| b.id == id)
            .map(|b| BrawlerEntity { avatar_url: b.avatar_url.clone(), ..row(b.id, &b.username, &b.password, &b.display_name) })
            .ok_or_else(not_found)
    }
    fn find_by_username(&self, u: &str) -> Result<BrawlerEntity, RepositoryError> {
        self.rows.lock().unwrap().iter().find(|b| b.username == u)
            .map(|b| BrawlerEntity { avatar_url: b.avatar_url.clone(), ..row(b.id, &b.username, &b.password, &b.display_name) })
            .ok_or_else(not_found)
    }
    fn register(&self, b: NewBrawlerEntity, _log: &mut EffectLog) -> Result<i32, RepositoryError> {
        let mut rows = self.rows.lock().unwrap();
        let id = rows.len() as i32 + 1;
        rows.push(row(id, &b.username, &b.password, &b.display_name));
        Ok(id)
    }
    fn update_avatar(&self, id: i32, url: String, _p: String, _log: &mut EffectLog) -> Result<(), RepositoryError> {
        self.avatars.lock().unwrap().push((id, url.clone()));
        for b in self.rows.lock().unwrap().iter_mut() {
            if b.id == id {
                b.avatar_url = Some(url.clone());
            }
        }
        Ok(())
    }
    fn update_cover(&self, _i: i32, _a: String, _p: String, _log: &mut EffectLog) -> Result<(), RepositoryError> { Ok(()) }
    fn search(&self, q: Option<String>, _p: i64, _s: i64) -> Result<(Vec<BrawlerEntity>, i64), RepositoryError> {
        let q = q.unwrap_or_default();
        let found: Vec<BrawlerEntity> = self.rows.lock().unwrap().iter().filter(|b| b.username.contains(&q))
            .map(|b| row(b.id, &b.username, &b.password, &b.display_name)).collect();
        let n = found.len() as i64;
        Ok((found, n))
    }
    fn update_display_name(&self, id: i32, d: String, _log: &mut EffectLog) -> Result<(), RepositoryError> {
        for b in self.rows.lock().unwrap().iter_mut() {
            if b.id == id {
                b.display_name = d.clone();
            }
        }
        Ok(())
    }
    fn update_bio(&self, _i: i32, _b: String, _log: &mut EffectLog) -> Result<(), RepositoryError> { Ok(()) }
    fn get_stats(&self, id: i32) -> Result<(i64, i64), RepositoryError> { Ok((id as i64 * 2, id as i64)) }
}

fn brawlers() -> Arc<Brawlers> {
    Arc::new(Brawlers { rows: Mutex::new(vec![row(1, "arthur545", "arthur545", "Arthur")]), avatars: Mutex::new(vec![]) })
}

#[test]
fn signing_up_and_logging_in() {
    let repo = brawlers();
    let uc = BrawlersUseCase::new(Arc::clone(&repo));
    assert!(matches!(
        uc.register(RegisterBrawlerModel { username: "arthur545".into(), password: "p".into(), display_name: "A".into() }, &mut EffectLog::new()),
        Err(BrawlersError::UsernameTaken)
    ));
    let p = uc.register(RegisterBrawlerModel { username: "bo".into(), password: "secret".into(), display_name: "Bo".into() }, &mut EffectLog::new()).ok().unwrap();
    assert_eq!((p.id, p.username.as_str(), p.display_name.as_str()), (2, "bo", "Bo"));
    assert!(p.avatar_url.is_none() && p.cover_url.is_none());
    assert!(repo.rows.lock().unwrap()[1].password.starts_with("$argon2"));
    assert_eq!(uc.check_username("bo".into()).ok(), Some(false));
    assert_eq!(uc.check_username("cy".into()).ok(), Some(true));

    let auth = AuthenticationUseCase::new(Arc::clone(&repo));
    let a = auth.login(LoginModel { username: "bo".into(), password: "secret".into() }).ok().unwrap();
    assert_eq!((a.profile.id, a.joined_count, a.completed_count), (2, 4, 2));
    assert!(matches!(auth.login(LoginModel { username: "bo".into(), password: "nope".into() }), Err(AuthenticationError::InvalidCredentials)));
    assert!(auth.login(LoginModel { username: "arthur545".into(), password: "arthur545".into() }).is_ok());
    assert_eq!(auth.get_me(1).ok().unwrap().profile.display_name, "Arthur");
}

#[test]
fn searching_and_renaming() {
    let repo = brawlers();
    let uc = BrawlersUseCase::new(Arc::clone(&repo));
    let page = uc.search("arth", 1, 10).ok().unwrap();
    assert_eq!((page.pagination.current_page, page.pagination.page_size, page.pagination.length), (1, 10, 1));
    assert_eq!(page.items[0].username, "arthur545");
    assert!(matches!(uc.update_display_name(1, " ".into(), &mut EffectLog::new()), Err(BrawlersError::EmptyDisplayName)));
    assert_eq!(uc.update_display_name(1, "Art".into(), &mut EffectLog::new()).ok().unwrap().display_name, "Art");
    assert_eq!(uc.get_profile_by_username("arthur545".into()).ok().unwrap().id, 1);
}

#[test]
fn line_users_are_signed_up_once() {
    let repo = brawlers();
    let auth = AuthenticationUseCase::new(Arc::clone(&repo));
    let profile = || LineProfileResponse {
        user_id: "U9".into(),
        display_name: "Line Girl".into(),
        picture_url: Some("https://pic".into()),
        status_message: None,
    };
    let a = auth.line_login(profile(), &mut EffectLog::new()).ok().unwrap();
    assert_eq!((a.profile.username.as_str(), a.profile.display_name.as_str()), ("line_U9", "Line Girl"));
    assert_eq!(a.profile.avatar_url, Some("https://pic".to_string()));
    let b = auth.line_login(profile(), &mut EffectLog::new()).ok().unwrap();
    assert_eq!(b.profile.id, a.profile.id);
    assert_eq!(repo.rows.lock().unwrap().len(), 2);
    assert_eq!(repo.avatars.lock().unwrap().len(), 1);
}
