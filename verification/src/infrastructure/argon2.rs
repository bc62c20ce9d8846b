//! Password hashing with Argon2 (PHC string format), with a fallback for
//! legacy accounts whose stored password is plain text.
use vstd::prelude::*;
use argon2::password_hash::{rand_core::OsRng, PasswordHash, PasswordHasher, PasswordVerifier, SaltString};
use argon2::Argon2;
use vstd::utf8::encode_utf8;

verus! {

/// Whether `stored` is a password hash in the PHC string format, i.e. whether
/// `password_hash::PasswordHash::new(stored)` succeeds.
pub uninterp spec fn phc_parses(stored: Seq<char>) -> bool;

/// Whether `Argon2::default().verify_password(password, &PasswordHash::new(stored)?)`
/// succeeds: the hash recomputed from `password` with the salt and parameters
/// of `stored` is the one in `stored`.
pub uninterp spec fn argon2_accepts(password: Seq<char>, stored: Seq<char>) -> bool;

/// Checks `password` against the PHC string `stored`: `None` when `stored`
/// does not parse (`PasswordHash::new` fails), else whether
/// `Argon2::default().verify_password` succeeds. `PasswordHash::parse`
/// refuses an empty string and one whose text before the first `$` is not
/// empty, so a string that parses starts with `$`.
#[verifier::external_body]
fn argon2_check(password: &str, stored: &str) -> (r: Option<bool>)
    ensures
        r is Some <==> phc_parses(stored@),
        r is Some ==> stored@.len() > 0 && stored@[0] == '$',
        r matches Some(b) ==> b == argon2_accepts(password@, stored@),
{
    match PasswordHash::new(stored) {
        Ok(parsed) => Some(Argon2::default().verify_password(password.as_bytes(), &parsed).is_ok()),
        Err(_) => None,
    }
}

/// Hashes `password` with `Argon2::default().hash_password` under a fresh
/// random salt (`SaltString::generate(&mut OsRng)`) and gives the PHC string,
/// or the error's text. The salt is chance, so the string itself is not
/// stated; what is stated is what the crate documents: the string parses as
/// a `PasswordHash` and verifying the same password against it succeeds. In
/// `hash_password`, with the default parameters and a generated salt of 16
/// bytes, the only check that can fail is the password's length against
/// `argon2::MAX_PWD_LEN` (0xFFFFFFFF bytes), so a shorter password is hashed.
#[verifier::external_body]
fn argon2_hash(password: &str) -> (r: Result<String, String>)
    ensures
        r matches Ok(s) ==> phc_parses(s@) && argon2_accepts(password@, s@),
        encode_utf8(password@).len() <= 0xFFFF_FFFF ==> r is Ok,
{
    let salt = SaltString::generate(&mut OsRng);
    match Argon2::default().hash_password(password.as_bytes(), &salt) {
        Ok(h) => Ok(h.to_string()),
        Err(e) => Err(e.to_string()),
    }
}

/// A failure to hash a password, with the hasher's description.
pub struct PasswordError {
    pub message: String,
}

/// Whether `password` is the one that `stored` keeps: by Argon2 when
/// `stored` is a PHC string, and by plain comparison otherwise (accounts from
/// before hashing was introduced).
pub open spec fn password_matches(password: Seq<char>, stored: Seq<char>) -> bool {
    if phc_parses(stored) {
        argon2_accepts(password, stored)
    } else {
        password == stored
    }
}

/// The PHC string to store for `password`; hashing fails only for a
/// password longer than 0xFFFFFFFF bytes.
pub fn hash(password: String) -> (r: Result<String, PasswordError>)
    ensures
        r matches Ok(s) ==> phc_parses(s@) && argon2_accepts(password@, s@),
        encode_utf8(password@).len() <= 0xFFFF_FFFF ==> r is Ok,
{
    match argon2_hash(password.as_str()) {
        Ok(s) => Ok(s),
        Err(message) => Err(PasswordError { message }),
    }
}

/// Whether `password` is the one that `hashed_password` keeps.
pub fn verify(password: String, hashed_password: String) -> (r: Result<bool, PasswordError>)
    ensures
        r matches Ok(b) && b == password_matches(password@, hashed_password@),
        !(hashed_password@.len() > 0 && hashed_password@[0] == '$') ==> r == Ok::<bool, PasswordError>(
            password@ == hashed_password@,
        ),
{
    match argon2_check(password.as_str(), hashed_password.as_str()) {
        Some(b) => Ok(b),
        None => Ok(crate::domain::value_objects::mission_statuses::str_equal(
            password.as_str(),
            hashed_password.as_str(),
        )),
    }
}

/// A text takes at most four bytes a character in UTF-8.
pub proof fn lemma_utf8_len_bound(s: Seq<char>)
    ensures
        encode_utf8(s).len() <= 4 * s.len(),
    decreases s.len(),
{
    if s.len() > 0 {
        lemma_utf8_len_bound(s.drop_first());
    }
}

/// A password that `hash` stored verifies; a stored plain-text password
/// verifies exactly the same text.
pub proof fn lemma_hash_then_verify(password: Seq<char>, stored: Seq<char>)
    ensures
        phc_parses(stored) && argon2_accepts(password, stored) ==> password_matches(password, stored),
        !phc_parses(stored) ==> (password_matches(password, stored) <==> password == stored),
{
}

} // verus!
