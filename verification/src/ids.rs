//! Identifiers of new records, and the new records themselves.

use crate::model::{GeneratedValueModel, UserModel};
use crate::schema::{CreateGeneratedValueSchema, CreateUserSchema};
use vstd::prelude::*;

verus! {

/// A lower-case hexadecimal digit.
pub open spec fn is_lower_hex_digit(c: char) -> bool {
    ('0' <= c && c <= '9') || ('a' <= c && c <= 'f')
}

/// The positions of the four hyphens in the hyphenated form of a UUID.
pub open spec fn is_hyphen_position(i: int) -> bool {
    i == 8 || i == 13 || i == 18 || i == 23
}

/// `s` is the lower-case hyphenated form (8-4-4-4-12 hexadecimal digits) of
/// a random (version 4, RFC 9562 variant) UUID.
pub open spec fn is_random_uuid_text(s: Seq<char>) -> bool {
    &&& s.len() == 36
    &&& forall|i: int|
        0 <= i < 36 ==> if is_hyphen_position(i) {
            s[i] == '-'
        } else {
            is_lower_hex_digit(#[trigger] s[i])
        }
    &&& s[14] == '4'
    &&& (s[19] == '8' || s[19] == '9' || s[19] == 'a' || s[19] == 'b')
}

/// Calls `uuid::Uuid::new_v4` and formats the result with its `Display`
/// implementation (`to_string`). Claimed: the text is the lower-case
/// hyphenated form of a version 4 UUID, as `format_hyphenated` writes it and
/// as `new_v4` masks the version and variant bits. Which random bits come back
/// is left open. `new_v4` panics when the operating system cannot supply
/// random bytes; nothing here rules that out.
#[verifier::external_body]
fn random_uuid_text() -> (id: String)
    ensures
        is_random_uuid_text(id@),
{
    uuid::Uuid::new_v4().to_string()
}

/// The row stored for a new generated value: a fresh random identifier and
/// the value of the request.
pub fn new_generated_value(body: &CreateGeneratedValueSchema) -> (row: GeneratedValueModel)
    ensures
        row.num == body.num,
        is_random_uuid_text(row.id@),
{
    GeneratedValueModel { id: random_uuid_text(), num: body.num }
}

/// The row stored for a new user: a fresh random identifier and the name and
/// password of the request.
pub fn new_user(user: &CreateUserSchema) -> (row: UserModel)
    ensures
        row.username@ == user.username@,
        row.password@ == user.password@,
        is_random_uuid_text(row.id@),
{
    UserModel { id: random_uuid_text(), username: user.username.clone(), password: user.password.clone() }
}

} // verus!
