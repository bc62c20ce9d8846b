//! The bodies and query strings that the HTTP routes take.
use vstd::prelude::*;

verus! {

/// The query with which LINE calls back after a login attempt.
pub struct LineCallbackQuery {
    pub code: Option<String>,
    pub state: Option<String>,
    pub error: Option<String>,
    pub error_description: Option<String>,
}

/// A brawler search.
pub struct SearchQuery {
    pub query: Option<String>,
    pub current_page: Option<i64>,
    pub page_size: Option<i64>,
}

/// The search that a query asks for: the text (empty when none), the page
/// (1 when none) and the page size (10 when none).
pub fn search_parameters(q: SearchQuery) -> (r: (String, i64, i64))
    ensures
        r.0@ == (match q.query {
            Some(s) => s@,
            None => Seq::<char>::empty(),
        }),
        r.1 == (match q.current_page {
            Some(p) => p,
            None => 1,
        }),
        r.2 == (match q.page_size {
            Some(p) => p,
            None => 10,
        }),
{
    let query = match q.query {
        Some(s) => s,
        None => String::new(),
    };
    let page = match q.current_page {
        Some(p) => p,
        None => 1,
    };
    let page_size = match q.page_size {
        Some(p) => p,
        None => 10,
    };
    (query, page, page_size)
}

/// A new display name.
pub struct UpdateDisplayNameRequest {
    pub display_name: String,
}

/// A crew chat message.
pub struct SendMessageModel {
    pub content: String,
    pub image_url: Option<String>,
}

/// A mission chat message.
pub struct SendMessagePayload {
    pub content: String,
}

/// A rating of a mission.
pub struct AddRatingRequest {
    pub rating: i32,
    pub comment: Option<String>,
}

/// The answer to an invitation.
pub struct RespondInvitation {
    pub accept: bool,
}

} // verus!
