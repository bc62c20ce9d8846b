pub mod auth_token;
pub mod line_redirects;
pub mod requests;
