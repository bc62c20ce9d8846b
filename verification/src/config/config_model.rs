//! The server's settings.
use vstd::prelude::*;

verus! {

/// Where and how the HTTP server listens.
pub struct Server {
    pub port: u16,
    pub body_limit: u64,
    pub timeout: u64,
}

/// The database to connect to.
pub struct Database {
    pub url: String,
}

/// All settings of the server.
pub struct DotEnvyConfig {
    pub server: Server,
    pub database: Database,
    pub secret: String,
    pub refresh_secret: String,
    pub max_crew_per_mission: i64,
}

/// How access tokens are signed and how long they live.
pub struct JwtEnv {
    pub secret: String,
    pub life_time_days: i64,
}

} // verus!
