//! Random identifiers from the `uuid` crate.
use vstd::prelude::*;

verus! {

pub open spec fn is_lower_hex_digit(c: char) -> bool {
    ('0' <= c <= '9') || ('a' <= c <= 'f')
}

/// The hyphenated lower-case text of a UUID: 36 characters, hyphens at
/// positions 8, 13, 18 and 23, lower-case hexadecimal digits elsewhere.
pub open spec fn is_uuid_text(t: Seq<char>) -> bool {
    &&& t.len() == 36
    &&& forall|i: int|
        0 <= i < 36 ==> if i == 8 || i == 13 || i == 18 || i == 23 {
            #[trigger] t[i] == '-'
        } else {
            is_lower_hex_digit(t[i])
        }
}

/// A fresh random version-4 UUID in its hyphenated text
/// (`uuid::Uuid::new_v4().to_string()`). Its `Display` writes the 16 bytes as
/// lower-case hexadecimal in groups of 8-4-4-4-12 separated by hyphens; which
/// UUID comes out is chance and is not stated.
#[verifier::external_body]
pub(crate) fn new_uuid_v4_text() -> (t: String)
    ensures
        is_uuid_text(t@),
{
    uuid::Uuid::new_v4().to_string()
}

} // verus!
