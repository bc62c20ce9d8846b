//! Settings from the environment: defaults for what is not set, and numbers
//! read in decimal.
use vstd::prelude::*;
use crate::config::config_model::{Database, DotEnvyConfig, JwtEnv, Server};
use crate::decimal::{parse_i64, parse_unsigned, parsed_i64, parsed_unsigned};

verus! {

/// The values of the environment variables that the settings come from,
/// `None` for those that are not set.
pub struct EnvironmentVariables {
    pub port: Option<String>,
    pub server_port: Option<String>,
    pub server_body_limit: Option<String>,
    pub server_timeout: Option<String>,
    pub database_url: Option<String>,
    pub jwt_user_secret: Option<String>,
    pub jwt_user_refresh_secret: Option<String>,
    pub max_crew_per_mission: Option<String>,
}

/// The setting that is not a number of the right kind.
pub enum ConfigError {
    Port,
    BodyLimit,
    Timeout,
    MaxCrewPerMission,
    JwtLifeTimeDays,
}

/// The value of a variable, or `default` when it is not set.
pub open spec fn or_default(v: Option<String>, default: Seq<char>) -> Seq<char> {
    match v {
        Some(s) => s@,
        None => default,
    }
}

fn value_or(v: &Option<String>, default: &str) -> (r: String)
    ensures
        r@ == or_default(*v, default@),
{
    match v {
        Some(s) => s.clone(),
        None => default.to_owned(),
    }
}

/// The text of the port setting: `PORT`, else `SERVER_PORT`, else 80.
pub open spec fn port_text(vars: EnvironmentVariables) -> Seq<char> {
    match vars.port {
        Some(p) => p@,
        None => or_default(vars.server_port, "80"@),
    }
}

/// The first setting, in the order port, body limit, timeout, crew limit,
/// whose text is not a number of its kind, if any.
pub open spec fn config_refusal(vars: EnvironmentVariables) -> Option<ConfigError> {
    if parsed_unsigned(port_text(vars), 0xFFFF) is None {
        Some(ConfigError::Port)
    } else if parsed_unsigned(or_default(vars.server_body_limit, "10485760"@), u64::MAX as int) is None {
        Some(ConfigError::BodyLimit)
    } else if parsed_unsigned(or_default(vars.server_timeout, "30"@), u64::MAX as int) is None {
        Some(ConfigError::Timeout)
    } else if parsed_i64(or_default(vars.max_crew_per_mission, "5"@)) is None {
        Some(ConfigError::MaxCrewPerMission)
    } else {
        None
    }
}

/// The settings that the environment gives, or the error of
/// `config_refusal` when a setting is not a number of its kind.
pub fn resolve(vars: EnvironmentVariables) -> (r: Result<DotEnvyConfig, ConfigError>)
    ensures
        match config_refusal(vars) {
            Some(e) => r == Err::<DotEnvyConfig, ConfigError>(e),
            None => r is Ok,
        },
        r matches Ok(c) ==> {
            &&& parsed_unsigned(port_text(vars), 0xFFFF) == Some(c.server.port as int)
            &&& parsed_unsigned(or_default(vars.server_body_limit, "10485760"@), u64::MAX as int)
                == Some(c.server.body_limit as int)
            &&& parsed_unsigned(or_default(vars.server_timeout, "30"@), u64::MAX as int) == Some(
                c.server.timeout as int,
            )
            &&& c.database.url@ == or_default(vars.database_url, Seq::<char>::empty())
            &&& c.secret@ == or_default(vars.jwt_user_secret, "default_secret_for_railway"@)
            &&& c.refresh_secret@ == or_default(vars.jwt_user_refresh_secret, "default_refresh_secret"@)
            &&& parsed_i64(or_default(vars.max_crew_per_mission, "5"@)) == Some(c.max_crew_per_mission)
        },
{
    let port_text = match &vars.port {
        Some(p) => p.clone(),
        None => value_or(&vars.server_port, "80"),
    };
    let port = match parse_unsigned(port_text.as_str(), 0xFFFF) {
        Some(p) => {
            assert(p <= 0xFFFF);
            p as u16
        },
        None => return Err(ConfigError::Port),
    };
    let body_limit = match parse_unsigned(
        value_or(&vars.server_body_limit, "10485760").as_str(),
        u64::MAX,
    ) {
        Some(v) => v,
        None => return Err(ConfigError::BodyLimit),
    };
    let timeout = match parse_unsigned(value_or(&vars.server_timeout, "30").as_str(), u64::MAX) {
        Some(v) => v,
        None => return Err(ConfigError::Timeout),
    };
    let url = value_or(&vars.database_url, "");
    proof {
        reveal_strlit("");
    }
    let secret = value_or(&vars.jwt_user_secret, "default_secret_for_railway");
    let refresh_secret = value_or(&vars.jwt_user_refresh_secret, "default_refresh_secret");
    let max_crew_per_mission = match parse_i64(value_or(&vars.max_crew_per_mission, "5").as_str()) {
        Some(v) => v,
        None => return Err(ConfigError::MaxCrewPerMission),
    };
    Ok(
        DotEnvyConfig {
            server: Server { port, body_limit, timeout },
            database: Database { url },
            secret,
            refresh_secret,
            max_crew_per_mission,
        },
    )
}

/// The token settings that the environment gives: the secret
/// (`JWT_USER_SECRET`, with a default) and the lifetime in days
/// (`JWT_LIFE_TIME_DAYS`, 7 when not set).
pub fn jwt_env(jwt_user_secret: Option<String>, jwt_life_time_days: Option<String>) -> (r: Result<
    JwtEnv,
    ConfigError,
>)
    ensures
        parsed_i64(or_default(jwt_life_time_days, "7"@)) is None <==> r is Err,
        r matches Ok(e) ==> e.secret@ == or_default(jwt_user_secret, "default_secret_for_railway"@)
            && parsed_i64(or_default(jwt_life_time_days, "7"@)) == Some(e.life_time_days),
{
    let secret = value_or(&jwt_user_secret, "default_secret_for_railway");
    match parse_i64(value_or(&jwt_life_time_days, "7").as_str()) {
        Some(life_time_days) => Ok(JwtEnv { secret, life_time_days }),
        None => Err(ConfigError::JwtLifeTimeDays),
    }
}

} // verus!
