//! Request ids: random (version 4) UUIDs from the `uuid` crate.
use uuid::Uuid;
use vstd::prelude::*;

verus! {

#[verifier::external_type_specification]
#[verifier::external_body]
pub struct ExUuid(Uuid);

/// A lowercase hexadecimal digit.
pub open spec fn is_lower_hex(c: char) -> bool {
    ('0' <= c && c <= '9') || ('a' <= c && c <= 'f')
}

/// The hyphenated form of a UUID: 36 characters, hyphens at positions 8,
/// 13, 18 and 23, lowercase hexadecimal digits elsewhere.
pub open spec fn is_hyphenated_uuid(s: Seq<char>) -> bool {
    &&& s.len() == 36
    &&& forall|i: int|
        0 <= i < 36 ==> (if i == 8 || i == 13 || i == 18 || i == 23 {
            s[i] == '-'
        } else {
            is_lower_hex(#[trigger] s[i])
        })
}

/// `uuid::Uuid::new_v4`: a random UUID. Nothing is stated of its value. It
/// panics only if the operating system's random source fails, which no
/// argument decides.
#[verifier::external_body]
pub(crate) fn new_v4() -> Uuid {
    Uuid::new_v4()
}

/// `Uuid`'s `Display`, through `ToString::to_string`: the UUID in its
/// hyphenated lowercase form, 32 hexadecimal digits in groups of 8, 4, 4, 4
/// and 12. Which digits come out depends on the UUID, which is opaque here.
#[verifier::external_body]
pub(crate) fn uuid_to_string(id: &Uuid) -> (s: String)
    ensures
        is_hyphenated_uuid(s@),
{
    id.to_string()
}

/// A fresh request id: a random UUID in hyphenated form.
pub fn fresh_request_id() -> (id: String)
    ensures
        is_hyphenated_uuid(id@),
{
    let u = new_v4();
    uuid_to_string(&u)
}

} // verus!
