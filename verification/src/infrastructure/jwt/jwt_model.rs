//! Access tokens: what a token claims, and the passport that a brawler who
//! logs in receives with it.
use vstd::prelude::*;
use crate::domain::effects::{Effect, EffectLog};
use crate::text::copy_optional;

verus! {

/// What an access token claims: whose it is (`sub`), when it expires (`exp`)
/// and when it was issued (`iat`), both in seconds since the Unix epoch, and
/// the brawler's display name and avatar.
#[derive(Clone, Debug)]
pub struct Claims {
    pub sub: i32,
    pub exp: usize,
    pub iat: usize,
    pub display_name: String,
    pub avatar_url: Option<String>,
}

/// The moment, in seconds since the Unix epoch, at which a token issued at
/// `issued_at` and living `life_time_days` days expires.
pub open spec fn expiry(issued_at: int, life_time_days: int) -> int {
    issued_at + life_time_days * 86400
}

/// Whether the lifetime in seconds and the expiry both fit in an `i64`.
pub open spec fn expiry_fits(issued_at: int, life_time_days: int) -> bool {
    &&& i64::MIN <= life_time_days * 86400 <= i64::MAX
    &&& i64::MIN <= expiry(issued_at, life_time_days) <= i64::MAX
}

/// The claims of a token for `brawler_id`, issued at `issued_at` and living
/// `life_time_days` days: the times are taken as `usize`, as the token
/// format stores them.
pub open spec fn are_claims_for(
    c: Claims,
    brawler_id: i32,
    display_name: Seq<char>,
    avatar_url: Option<String>,
    issued_at: i64,
    life_time_days: i64,
) -> bool {
    &&& c.sub == brawler_id
    &&& c.iat == issued_at as usize
    &&& c.exp == expiry(issued_at as int, life_time_days as int) as usize
    &&& c.display_name@ == display_name
    &&& c.avatar_url == avatar_url
}

/// `r` is what `Claims::at` gives for a token for `brawler_id` issued at
/// `t` that lives `life_time_days` days: claims for them exactly when the
/// expiry fits in an `i64`.
pub open spec fn issued_at(
    r: Option<Claims>,
    t: i64,
    brawler_id: i32,
    display_name: Seq<char>,
    avatar_url: Option<String>,
    life_time_days: i64,
) -> bool {
    &&& r is Some <==> expiry_fits(t as int, life_time_days as int)
    &&& r matches Some(c) ==> are_claims_for(c, brawler_id, display_name, avatar_url, t, life_time_days)
}

impl Claims {
    /// The claims of a token for `brawler_id` issued at `issued_at` (seconds
    /// since the Unix epoch) that lives `life_time_days` days; `None` when the
    /// expiry does not fit in an `i64`.
    pub fn at(
        brawler_id: i32,
        display_name: String,
        avatar_url: Option<String>,
        issued_at: i64,
        life_time_days: i64,
    ) -> (r: Option<Claims>)
        ensures
            r is Some <==> expiry_fits(issued_at as int, life_time_days as int),
            r matches Some(c) ==> are_claims_for(
                c,
                brawler_id,
                display_name@,
                avatar_url,
                issued_at,
                life_time_days,
            ),
    {
        let span = match life_time_days.checked_mul(86400) {
            Some(s) => s,
            None => return None,
        };
        let exp = match issued_at.checked_add(span) {
            Some(e) => e,
            None => return None,
        };
        Some(
            Claims {
                sub: brawler_id,
                exp: exp as usize,
                iat: issued_at as usize,
                display_name,
                avatar_url,
            },
        )
    }

    /// The claims of a token for `brawler_id` issued now, by the clock, that
    /// lives `life_time_days` days; `None` when the expiry does not fit in an
    /// `i64`. Whatever the clock says, the result is what `Claims::at` gives
    /// for that time; a lifetime within a hundred trillion days of zero
    /// always fits.
    pub fn issue(
        brawler_id: i32,
        display_name: String,
        avatar_url: Option<String>,
        life_time_days: i64,
    ) -> (r: Option<Claims>)
        ensures
            exists|t: i64|
                #[trigger] issued_at(r, t, brawler_id, display_name@, avatar_url, life_time_days),
            -100_000_000_000_000 <= life_time_days <= 100_000_000_000_000 ==> r is Some,
    {
        let mut log = EffectLog::new();
        Claims::issue_recorded(brawler_id, display_name, avatar_url, life_time_days, &mut log)
    }

    /// The claims of a token for `brawler_id` issued at the clock's reading,
    /// which is recorded in `log`, and living `life_time_days` days: what
    /// `Claims::at` gives for that reading.
    pub fn issue_recorded(
        brawler_id: i32,
        display_name: String,
        avatar_url: Option<String>,
        life_time_days: i64,
        log: &mut EffectLog,
    ) -> (r: Option<Claims>)
        ensures
            exists|t: i64|
                final(log)@ == old(log)@.push(Effect::ClockReadSeconds(t)) && #[trigger] issued_at(
                    r,
                    t,
                    brawler_id,
                    display_name@,
                    avatar_url,
                    life_time_days,
                ),
            -100_000_000_000_000 <= life_time_days <= 100_000_000_000_000 ==> r is Some,
    {
        let now = log.read_clock_seconds();
        let r = Claims::at(brawler_id, display_name, avatar_url, now, life_time_days);
        assert(issued_at(r, now, brawler_id, display_name@, avatar_url, life_time_days));
        r
    }
}

/// A token issued by `issue_recorded`, with the log going from `before` to
/// `after`, is issued at the one clock reading that the call took, and
/// expires exactly `life_time_days` days after it: a token issued now with
/// a positive lifetime is not yet expired.
pub proof fn lemma_token_starts_at_the_reading(
    before: Seq<Effect>,
    after: Seq<Effect>,
    c: Claims,
    brawler_id: i32,
    display_name: Seq<char>,
    avatar_url: Option<String>,
    life_time_days: i64,
)
    requires
        exists|t: i64|
            after == before.push(Effect::ClockReadSeconds(t)) && #[trigger] issued_at(
                Some(c),
                t,
                brawler_id,
                display_name,
                avatar_url,
                life_time_days,
            ),
    ensures
        after.len() == before.len() + 1,
        after.last() matches Effect::ClockReadSeconds(now) && {
            &&& c.iat == now as usize
            &&& c.exp == (now + life_time_days * 86400) as usize
            &&& 0 <= now <= usize::MAX ==> c.iat == now
            &&& 0 <= now + life_time_days * 86400 <= usize::MAX ==> c.exp == now + life_time_days
                * 86400
            &&& 0 <= now <= usize::MAX && 0 < life_time_days && now + life_time_days * 86400
                <= usize::MAX ==> c.exp > c.iat
        },
        c.sub == brawler_id,
{
}

/// What a brawler who logs in receives: the bearer token `access_token`, its
/// expiry, and who they are.
pub struct Passport {
    pub id: i32,
    pub token_type: String,
    pub access_token: String,
    pub expires_in: usize,
    pub display_name: String,
    pub username: String,
    pub avatar_url: Option<String>,
    pub cover_url: Option<String>,
}

impl Passport {
    /// The passport for the bearer token `access_token`, which carries
    /// `claims`, of the brawler named `username` whose cover is `cover_url`.
    pub fn new(claims: &Claims, username: String, cover_url: Option<String>, access_token: String) -> (p:
        Passport)
        ensures
            p.id == claims.sub,
            p.token_type@ == "Bearer"@,
            p.access_token == access_token,
            p.expires_in == claims.exp,
            p.display_name == claims.display_name,
            p.username == username,
            p.avatar_url == claims.avatar_url,
            p.cover_url == cover_url,
    {
        Passport {
            id: claims.sub,
            token_type: String::from_str("Bearer"),
            access_token,
            expires_in: claims.exp,
            display_name: claims.display_name.clone(),
            username,
            avatar_url: copy_optional(&claims.avatar_url),
            cover_url,
        }
    }
}

} // verus!
