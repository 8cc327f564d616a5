//! Random identifiers: version 4 UUIDs in their hyphenated text form.

use vstd::prelude::*;

verus! {

/// A lowercase hexadecimal digit.
pub open spec fn is_lower_hex_digit(c: char) -> bool {
    ('0' <= c && c <= '9') || ('a' <= c && c <= 'f')
}

/// The hyphenated lowercase text of a random (version 4, RFC 4122 variant)
/// UUID: 36 characters, hyphens at positions 8, 13, 18 and 23, lowercase hex
/// digits elsewhere, the version digit `4` at position 14 and one of
/// `8`, `9`, `a`, `b` at position 19.
pub open spec fn is_v4_uuid_text(s: Seq<char>) -> bool {
    &&& s.len() == 36
    &&& forall|i: int|
        0 <= i < 36 ==> (if i == 8 || i == 13 || i == 18 || i == 23 {
            #[trigger] s[i] == '-'
        } else {
            is_lower_hex_digit(s[i])
        })
    &&& s[14] == '4'
    &&& (s[19] == '8' || s[19] == '9' || s[19] == 'a' || s[19] == 'b')
}

/// Calls `uuid::Uuid::new_v4` and formats the result with its `Display` impl.
/// Trusted: `new_v4` masks random bits so that the version nibble is 4 and the
/// variant bits are `10`, and `Display` writes the hyphenated lowercase form
/// (`format_hyphenated` in the crate's `fmt.rs`). Which UUID comes out is left
/// open: it rests on the operating system's random source.
#[verifier::external_body]
pub(crate) fn new_v4_uuid_text() -> (s: String)
    ensures
        is_v4_uuid_text(s@),
{
    uuid::Uuid::new_v4().to_string()
}

/// `s` is text that `new_v4_uuid_text` can return: the text of a freshly
/// generated random UUID, not merely text of that shape.
pub closed spec fn is_fresh_uuid(s: String) -> bool {
    call_ensures(new_v4_uuid_text, (), s)
}

/// A freshly generated random identifier: the text of a new version 4 UUID.
pub fn fresh_uuid_text() -> (s: String)
    ensures
        is_fresh_uuid(s),
        is_v4_uuid_text(s@),
{
    new_v4_uuid_text()
}

/// A freshly generated identifier is always the text of a version 4 UUID.
pub proof fn law_fresh_uuid_is_v4_text(s: String)
    requires
        is_fresh_uuid(s),
    ensures
        is_v4_uuid_text(s@),
{
}

} // verus!
