//! The textual forms of a check's identifier.
//!
//! A check is named by a UUID. Three spellings are taken: thirty-two
//! hexadecimal digits, the same digits in groups of 8, 4, 4, 4 and 12 joined by
//! hyphens, and the hyphenated form behind the prefix `urn:uuid:`.

use vstd::prelude::*;

verus! {

/// Whether `c` is one of `0-9`, `a-f`, `A-F`.
pub open spec fn is_hex_digit(c: char) -> bool {
    ('0' <= c && c <= '9') || ('a' <= c && c <= 'f') || ('A' <= c && c <= 'F')
}

/// Whether `i` is a place at which the hyphenated form carries a hyphen.
pub open spec fn is_hyphen_place(i: int) -> bool {
    i == 8 || i == 13 || i == 18 || i == 23
}

/// Thirty-two hexadecimal digits and nothing else.
pub open spec fn is_simple_form(s: Seq<char>) -> bool {
    &&& s.len() == 32
    &&& forall|i: int| 0 <= i < s.len() ==> is_hex_digit(#[trigger] s[i])
}

/// Thirty-six characters: hyphens at places 8, 13, 18 and 23, hexadecimal
/// digits everywhere else.
pub open spec fn is_hyphenated_form(s: Seq<char>) -> bool {
    &&& s.len() == 36
    &&& forall|i: int|
        0 <= i < s.len() ==> if is_hyphen_place(i) {
            #[trigger] s[i] == '-'
        } else {
            is_hex_digit(s[i])
        }
}

/// The prefix of the URN form.
pub open spec fn urn_prefix() -> Seq<char> {
    "urn:uuid:"@
}

/// The hyphenated form behind `urn:uuid:`.
pub open spec fn is_urn_form(s: Seq<char>) -> bool {
    &&& s.len() == 45
    &&& s.subrange(0, 9) == urn_prefix()
    &&& is_hyphenated_form(s.subrange(9, 45))
}

/// Whether `s` spells a UUID in one of the three forms.
pub open spec fn is_uuid_text(s: Seq<char>) -> bool {
    is_simple_form(s) || is_hyphenated_form(s) || is_urn_form(s)
}

/// Asks `uuid::Uuid::parse_str` whether it takes `text`.
///
/// Trusted: the parser answers `Ok` exactly on the three forms of
/// [`is_uuid_text`]. It first demands a length of 32 or 36 bytes, or of 45
/// with the prefix `urn:uuid:` which it strips; then it walks the bytes,
/// takes a hyphen only after 8, 12, 16 and 20 digits, refuses every byte that
/// is neither a hyphen nor a hexadecimal digit, and ends by demanding 32
/// digits. Every accepted text is ASCII, so bytes and characters agree.
#[verifier::external_body]
pub(crate) fn parses_as_uuid(text: &str) -> (ok: bool)
    ensures
        ok == is_uuid_text(text@),
{
    uuid::Uuid::parse_str(text).is_ok()
}

} // verus!
