//! Random ids: version 4 UUIDs in their hyphenated text form.

use vstd::prelude::*;

verus! {

/// Whether a character is a lowercase hexadecimal digit.
pub open spec fn is_lower_hex_digit(c: char) -> bool {
    ('0' <= c && c <= '9') || ('a' <= c && c <= 'f')
}

/// The positions of the hyphens in the hyphenated form of a UUID.
pub open spec fn is_uuid_hyphen_position(i: int) -> bool {
    i == 8 || i == 13 || i == 18 || i == 23
}

/// The hyphenated text of a random (version 4, RFC 4122 variant) UUID:
/// 36 characters, hyphens at 8, 13, 18 and 23, the version digit `4` at 14,
/// a variant digit from `8` to `b` at 19, and lowercase hexadecimal digits
/// everywhere else.
pub open spec fn is_v4_uuid_text(s: Seq<char>) -> bool {
    &&& s.len() == 36
    &&& forall|i: int| 0 <= i < 36 && is_uuid_hyphen_position(i) ==> #[trigger] s[i] == '-'
    &&& forall|i: int| 0 <= i < 36 && !is_uuid_hyphen_position(i) ==> is_lower_hex_digit(#[trigger] s[i])
    &&& s[14] == '4'
    &&& (s[19] == '8' || s[19] == '9' || s[19] == 'a' || s[19] == 'b')
}

/// `uuid::Uuid::new_v4` followed by `to_string`: a random UUID whose
/// version bits are set to 4 and whose variant bits to RFC 4122, written in
/// the lowercase hyphenated form. Nothing is stated of which id.
#[verifier::external_body]
pub(crate) fn new_random_id() -> (id: String)
    ensures
        is_v4_uuid_text(id@),
{
    uuid::Uuid::new_v4().to_string()
}

/// A new random id for a record (a user, a device, an app, a key).
pub fn create_id() -> (id: String)
    ensures
        is_v4_uuid_text(id@),
{
    new_random_id()
}

} // verus!
