pub mod realtime;
pub mod identifiers;
pub mod clock;
pub mod argon2;
pub mod line;
pub mod http;
pub mod jwt;
