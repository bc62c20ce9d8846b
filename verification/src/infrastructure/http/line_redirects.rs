//! The addresses to which the LINE login sends the browser.
use vstd::prelude::*;
use vstd::string::StrSliceExecFns;
use vstd::utf8::encode_utf8;
use crate::infrastructure::identifiers::{is_uuid_text, new_uuid_v4_text};
use crate::infrastructure::http::requests::LineCallbackQuery;
use crate::text::push_char;

verus! {

/// A byte that percent-encoding leaves as it is: an ASCII letter or digit,
/// or one of `-`, `.`, `_`, `~`.
pub open spec fn is_unreserved(b: u8) -> bool {
    (0x30 <= b <= 0x39) || (0x41 <= b <= 0x5A) || (0x61 <= b <= 0x7A) || b == 0x2D || b == 0x2E
        || b == 0x5F || b == 0x7E
}

/// The upper-case hexadecimal digit for `d` below 16.
pub open spec fn hex_upper(d: u8) -> char {
    if d < 10 {
        ((d + 0x30) as u32) as char
    } else {
        ((d + 0x37) as u32) as char
    }
}

/// The percent-encoding of `bytes`: each unreserved byte as its character,
/// every other byte as `%` and two upper-case hexadecimal digits.
pub open spec fn percent_encoded(bytes: Seq<u8>) -> Seq<char>
    decreases bytes.len(),
{
    if bytes.len() == 0 {
        Seq::empty()
    } else {
        let b = bytes[0];
        let head = if is_unreserved(b) {
            seq![(b as u32) as char]
        } else {
            seq!['%', hex_upper(b / 16), hex_upper(b % 16)]
        };
        head + percent_encoded(bytes.drop_first())
    }
}

/// The percent-encoding of the UTF-8 bytes of `s` (`urlencoding::encode`),
/// which encodes every byte except ASCII letters, digits and `-`, `.`, `_`, `~`.
#[verifier::external_body]
fn url_encode(s: &str) -> (r: String)
    ensures
        r@ == percent_encoded(encode_utf8(s@)),
{
    urlencoding::encode(s).into_owned()
}

/// `url` with a `/` appended unless it already ends with one.
pub open spec fn with_trailing_slash(url: Seq<char>) -> Seq<char> {
    if url.len() > 0 && url.last() == '/' {
        url
    } else {
        url.push('/')
    }
}

fn trailing_slash(url: &str) -> (r: String)
    ensures
        r@ == with_trailing_slash(url@),
{
    let n = url.unicode_len();
    let mut r = url.to_owned();
    if n == 0 || url.get_char(n - 1) != '/' {
        push_char(&mut r, '/');
    }
    r
}

/// Where a successful LINE login lands: the front end's login page with the token.
pub open spec fn login_success_url(frontend_url: Seq<char>, token: Seq<char>) -> Seq<char> {
    with_trailing_slash(frontend_url) + "login?token="@ + token
}

/// Where a failed LINE login lands: the front end's login page with the
/// percent-encoded description of what failed.
pub open spec fn login_failure_url(frontend_url: Seq<char>, detail: Seq<char>) -> Seq<char> {
    with_trailing_slash(frontend_url) + "login?error=line_auth_failed&detail="@ + percent_encoded(
        encode_utf8(detail),
    )
}

/// The front end's address for a successful login with `token`.
pub fn login_success_redirect(frontend_url: &str, token: &str) -> (r: String)
    ensures
        r@ == login_success_url(frontend_url@, token@),
{
    trailing_slash(frontend_url).concat("login?token=").concat(token)
}

/// The front end's address for a failed login, explained by `detail`.
pub fn login_failure_redirect(frontend_url: &str, detail: &str) -> (r: String)
    ensures
        r@ == login_failure_url(frontend_url@, detail@),
{
    let encoded = url_encode(detail);
    trailing_slash(frontend_url).concat("login?error=line_auth_failed&detail=").concat(
        encoded.as_str(),
    )
}

/// LINE's authorization page for the channel `channel_id`, which calls back
/// `callback_url` with the state `state`.
pub open spec fn authorize_url(channel_id: Seq<char>, callback_url: Seq<char>, state: Seq<char>) -> Seq<
    char,
> {
    "https://access.line.me/oauth2/v2.1/authorize?response_type=code&client_id="@ + channel_id
        + "&redirect_uri="@ + percent_encoded(encode_utf8(callback_url)) + "&state="@ + state
        + "&scope=profile%20openid"@
}

/// The address of LINE's authorization page, with a fresh random state.
pub fn line_authorize_redirect(channel_id: &str, callback_url: &str) -> (r: String)
    ensures
        exists|state: Seq<char>| is_uuid_text(state) && r@ == authorize_url(channel_id@, callback_url@, state),
{
    let state = new_uuid_v4_text();
    let encoded = url_encode(callback_url);
    String::from_str("https://access.line.me/oauth2/v2.1/authorize?response_type=code&client_id=")
        .concat(channel_id).concat("&redirect_uri=").concat(encoded.as_str()).concat("&state=")
        .concat(state.as_str()).concat("&scope=profile%20openid")
}

/// What the LINE callback asks for.
pub enum LineCallback {
    /// LINE reports the error `error` with the optional description.
    Failed { error: String, description: Option<String> },
    /// No authorization code came.
    NoCode,
    /// Log in with the authorization code.
    Login { code: String },
}

/// Reads LINE's callback: an error wins, then a missing code.
pub fn read_line_callback(query: LineCallbackQuery) -> (r: LineCallback)
    ensures
        query.error matches Some(e) ==> r matches LineCallback::Failed { error, description }
            && error == e && description == query.error_description,
        query.error is None && query.code is None ==> r is NoCode,
        query.error is None ==> (query.code matches Some(c) ==> r matches LineCallback::Login {
            code,
        } && code == c),
{
    match query.error {
        Some(error) => LineCallback::Failed { error, description: query.error_description },
        None => match query.code {
            Some(code) => LineCallback::Login { code },
            None => LineCallback::NoCode,
        },
    }
}

} // verus!
