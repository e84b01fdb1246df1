//! Password hashing with `bcrypt`.

use vstd::prelude::*;

verus! {

/// The bcrypt cost new passwords are hashed at: bcrypt's default.
pub const PASSWORD_HASH_COST: u32 = 12;

/// What `bcrypt::verify` answers for `password` against `hash`: `None`
/// when `hash` is not a well-formed bcrypt hash.
pub uninterp spec fn spec_bcrypt_verify(password: Seq<char>, hash: Seq<char>) -> Option<bool>;

/// The decimal digit `d` (below ten) as a character.
pub open spec fn digit_char(d: u32) -> char {
    (d + 48) as char
}

/// How a bcrypt hash of cost `cost` (from 4 to 31) begins: `$2b$`, the cost
/// in two digits, and `$`.
pub open spec fn bcrypt_prefix(cost: u32) -> Seq<char> {
    seq!['$', '2', 'b', '$', digit_char(cost / 10), digit_char(cost % 10), '$']
}

/// Hashes `password` with `bcrypt::hash` at `cost` and a random salt;
/// `None` if the cost lies outside 4 to 31 or no salt could be drawn.
/// Trusted: a hash comes only for an allowed cost; it is 60 characters long
/// and begins with `$2b$` and the cost in two digits, then `$` (22
/// characters of salt and 31 of hash follow); and checking the same
/// password against it succeeds. The salt, and with it the rest of the
/// text, is random and left unsaid.
#[verifier::external_body]
pub(crate) fn hash_password(password: &str, cost: u32) -> (hash: Option<String>)
    ensures
        hash matches Some(h) ==> {
            &&& 4 <= cost <= 31
            &&& h@.len() == 60
            &&& h@.take(7) == bcrypt_prefix(cost)
            &&& spec_bcrypt_verify(password@, h@) == Some(true)
        },
{
    bcrypt::hash(password, cost).ok()
}

/// Checks `password` against `hash` with `bcrypt::verify`.
/// Trusted: the answer is what `spec_bcrypt_verify` names.
#[verifier::external_body]
pub(crate) fn verify_password(password: &str, hash: &str) -> (matches: Option<bool>)
    ensures
        matches == spec_bcrypt_verify(password@, hash@),
{
    bcrypt::verify(password, hash).ok()
}

} // verus!
