//! What the LINE login service answers.
use vstd::prelude::*;

verus! {

/// The access token that LINE grants for an authorization code.
pub struct LineTokenResponse {
    pub access_token: String,
    pub id_token: Option<String>,
}

/// A LINE user's profile.
pub struct LineProfileResponse {
    pub user_id: String,
    pub display_name: String,
    pub picture_url: Option<String>,
    pub status_message: Option<String>,
}

} // verus!
