//! Universally unique identifiers, held as their 128-bit value, and their
//! text as the `uuid` crate writes and reads it.

use vstd::prelude::*;

verus! {

/// The lowercase hexadecimal digit of `d < 16`.
pub open spec fn hex_digit(d: int) -> char {
    if d < 10 {
        crate::numfmt::digit_char(d as nat)
    } else if d == 10 {
        'a'
    } else if d == 11 {
        'b'
    } else if d == 12 {
        'c'
    } else if d == 13 {
        'd'
    } else if d == 14 {
        'e'
    } else {
        'f'
    }
}

/// The `k`-th hexadecimal digit of `id`, counting from the most significant.
pub open spec fn uuid_nibble(id: u128, k: int) -> int {
    ((id as int) / vstd::arithmetic::power::pow(16, (31 - k) as nat)) % 16
}

/// The position among the 32 digits of the character at `i` in the
/// hyphenated text (groups of 8, 4, 4, 4 and 12 digits).
pub open spec fn uuid_digit_index(i: int) -> int {
    if i < 8 {
        i
    } else if i < 13 {
        i - 1
    } else if i < 18 {
        i - 2
    } else if i < 23 {
        i - 3
    } else {
        i - 4
    }
}

/// The hyphenated lowercase text of `id`, e.g.
/// `550e8400-e29b-41d4-a716-446655440000`.
pub open spec fn uuid_hyphenated(id: u128) -> Seq<char> {
    Seq::new(
        36,
        |i: int|
            if i == 8 || i == 13 || i == 18 || i == 23 {
                '-'
            } else {
                hex_digit(uuid_nibble(id, uuid_digit_index(i)))
            },
    )
}

/// The value `uuid::Uuid::parse_str` reads from `text`, if it accepts it
/// (plain, hyphenated, braced or URN form).
pub uninterp spec fn spec_uuid_parse(text: Seq<char>) -> Option<u128>;

/// The text of `id` as `uuid::Uuid`'s `Display` writes it.
/// Trusted: that text is the hyphenated lowercase form, and `parse_str`
/// reads it back as `id`.
#[verifier::external_body]
pub(crate) fn uuid_to_string(id: u128) -> (text: String)
    ensures
        text@ == uuid_hyphenated(id),
        spec_uuid_parse(text@) == Some(id),
{
    uuid::Uuid::from_u128(id).to_string()
}

/// Reads a UUID with `uuid::Uuid::parse_str`.
/// Trusted: the result is what `spec_uuid_parse` names.
#[verifier::external_body]
pub(crate) fn uuid_parse(text: &str) -> (id: Option<u128>)
    ensures
        id == spec_uuid_parse(text@),
{
    match uuid::Uuid::parse_str(text) {
        Ok(id) => Some(id.as_u128()),
        Err(_) => None,
    }
}

} // verus!
