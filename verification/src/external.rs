//! The calls into outside crates that the hub makes, each behind a small trusted item.

use vstd::prelude::*;

verus! {

/// `serde_json::Value`: the JSON input and result of a task, carried through the hub unread.
#[verifier::external_type_specification]
#[verifier::external_body]
pub struct ExJsonValue(serde_json::Value);

/// `Clone::clone` of `serde_json::Value`, whose derived implementation builds the same JSON
/// tree again: the copy is claimed to be the same value.
pub assume_specification[ <serde_json::Value as Clone>::clone ](value: &serde_json::Value) -> (copy:
    serde_json::Value)
    ensures
        copy == *value,
;

/// Calls `time::OffsetDateTime::now_utc` and reads it as nanoseconds since the Unix epoch
/// (`unix_timestamp_nanos`). The clock decides the value, so nothing is claimed of it.
#[verifier::external_body]
pub(crate) fn now_unix_nanos() -> (now: i128) {
    time::OffsetDateTime::now_utc().unix_timestamp_nanos()
}

/// The character is a lowercase hexadecimal digit: `0`-`9` or `a`-`f`.
pub open spec fn is_lower_hex_digit(c: char) -> bool {
    let u = c as u32;
    (0x30 <= u && u <= 0x39) || (0x61 <= u && u <= 0x66)
}

/// `s` is a version-4 UUID in hyphenated lowercase form: 36 characters, `-` at positions
/// 8, 13, 18 and 23, lowercase hexadecimal digits elsewhere, the version digit `4` at
/// position 14 and one of the variant digits `8`, `9`, `a`, `b` at position 19.
pub open spec fn is_uuid_v4_text(s: Seq<char>) -> bool {
    &&& s.len() == 36
    &&& forall|i: int|
        0 <= i < 36 ==> if i == 8 || i == 13 || i == 18 || i == 23 {
            #[trigger] s[i] == '-'
        } else {
            is_lower_hex_digit(s[i])
        }
    &&& s[14] == '4'
    &&& s[19] == '8' || s[19] == '9' || s[19] == 'a' || s[19] == 'b'
}

/// Calls `uuid::Uuid::new_v4` and renders the identifier with `to_string`. The identifier is
/// random. `new_v4` fixes the version bits (digit 4) and the variant bits (digits 8 to b), and
/// `to_string` writes the hyphenated lowercase form; that form is all that is claimed.
#[verifier::external_body]
pub(crate) fn fresh_task_id() -> (id: String)
    ensures
        is_uuid_v4_text(id@),
{
    uuid::Uuid::new_v4().to_string()
}

} // verus!
