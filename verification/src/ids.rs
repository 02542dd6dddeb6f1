//! Identifiers: random version-4 UUIDs for message and error tracking.

use vstd::prelude::*;

verus! {

/// A `uuid::Uuid`, carried as an opaque value.
#[verifier::external_type_specification]
#[verifier::external_body]
pub struct ExUuid(uuid::Uuid);

/// `Clone` of `uuid::Uuid`, a `Copy` type: the same UUID.
pub assume_specification[ <uuid::Uuid as Clone>::clone ](id: &uuid::Uuid) -> (r: uuid::Uuid)
    ensures
        r == *id,
;

/// A lower-case hexadecimal digit.
pub open spec fn is_lower_hex(c: char) -> bool {
    ('0' <= c && c <= '9') || ('a' <= c && c <= 'f')
}

/// The hyphenated lower-case form of a UUID: 8-4-4-4-12 hexadecimal digits.
pub open spec fn is_hyphenated_uuid(s: Seq<char>) -> bool {
    &&& s.len() == 36
    &&& forall|i: int| 0 <= i < 36 ==>
        if i == 8 || i == 13 || i == 18 || i == 23 { s[i] == '-' } else { is_lower_hex(#[trigger] s[i]) }
}

/// The hyphenated form of a random (version 4, RFC 9562 variant) UUID.
pub open spec fn is_v4_uuid_text(s: Seq<char>) -> bool {
    &&& is_hyphenated_uuid(s)
    &&& s[14] == '4'
    &&& (s[19] == '8' || s[19] == '9' || s[19] == 'a' || s[19] == 'b')
}

/// `uuid::Uuid::new_v4`: a fresh random UUID. Nothing is promised of its value.
#[verifier::external_body]
pub(crate) fn new_uuid() -> uuid::Uuid {
    uuid::Uuid::new_v4()
}

/// `Display` of `uuid::Uuid`: the hyphenated lower-case form. Which digits
/// come out depends on the UUID's value, which is opaque here.
#[verifier::external_body]
pub(crate) fn uuid_text(id: &uuid::Uuid) -> (r: String)
    ensures
        is_hyphenated_uuid(r@),
{
    id.to_string()
}

/// `uuid::Uuid::new_v4` followed by `Display`: a fresh random UUID in
/// hyphenated form, whose version digit is `4` and whose variant digit is one
/// of `8`, `9`, `a`, `b`. The other digits are random.
#[verifier::external_body]
pub(crate) fn new_uuid_text() -> (r: String)
    ensures
        is_v4_uuid_text(r@),
{
    uuid::Uuid::new_v4().to_string()
}

} // verus!
