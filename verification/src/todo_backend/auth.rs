//! Tokens of the todo service: the `sub` claim is the numeric user id.

use vstd::prelude::*;
use crate::token::{
    expiry_for, jwt_decode, jwt_encode, spec_jwt_decode, spec_jwt_encode, unexpired, Subject,
    SubjectView, EXPIRY_LEEWAY_SECS, TOKEN_LIFETIME_SECS,
};

verus! {

/// The claims of a todo-service token.
pub struct Claims {
    pub sub: i32,
    pub exp: usize,
}

/// The claims a token carries if the service accepts it at time `now`:
/// the signature checks out under `secret`, `sub` is a 32-bit integer,
/// `exp` fits a `usize`, and the token has not expired.
pub open spec fn token_claims(token: Seq<char>, secret: Seq<char>, now: u64) -> Option<Claims> {
    match spec_jwt_decode(token, secret) {
        Some((Some(sub), _, Some(exp))) => {
            if i32::MIN <= sub <= i32::MAX && exp <= usize::MAX && unexpired(exp, now) {
                Some(Claims { sub: sub as i32, exp: exp as usize })
            } else {
                None
            }
        },
        _ => None,
    }
}

/// `token`, issued at `now`, is accepted with the claims of `user_id` and
/// an expiry a day after `now` at every time `later` (from the leeway on)
/// until a day and the leeway have passed, and refused from then on.
pub open spec fn accepted_for(token: Seq<char>, secret: Seq<char>, now: u64, user_id: i32) -> bool {
    forall|later: u64|
        later >= EXPIRY_LEEWAY_SECS ==> #[trigger] token_claims(token, secret, later) == if later
            - EXPIRY_LEEWAY_SECS <= now + TOKEN_LIFETIME_SECS {
            Some(Claims { sub: user_id, exp: (now + TOKEN_LIFETIME_SECS) as usize })
        } else {
            None
        }
}

/// Issues a token for `user_id` at time `now` (Unix seconds) that expires a
/// day later.
pub fn create_token(user_id: i32, secret: &str, now: u64) -> (token: String)
    requires
        now + TOKEN_LIFETIME_SECS <= usize::MAX,
    ensures
        token@ == spec_jwt_encode(SubjectView::Number(user_id), expiry_for(now), secret@),
        token@.len() > 0,
        accepted_for(token@, secret@, now, user_id),
{
    let exp = now + TOKEN_LIFETIME_SECS;
    jwt_encode(&Subject::Number(user_id), exp, secret)
}

/// The claims of `token` if the service accepts it at time `now`, else `None`.
pub fn check_token(token: &str, secret: &str, now: u64) -> (claims: Option<Claims>)
    requires
        now >= EXPIRY_LEEWAY_SECS,
    ensures
        claims == token_claims(token@, secret@, now),
{
    match jwt_decode(token, secret) {
        Some(decoded) => match (decoded.sub_number, decoded.exp) {
            (Some(sub), Some(exp)) => {
                if i32::MIN as i64 <= sub && sub <= i32::MAX as i64 && exp <= usize::MAX as u64
                    && exp >= now - EXPIRY_LEEWAY_SECS {
                    Some(verify_token(token, secret, now))
                } else {
                    None
                }
            },
            _ => None,
        },
        None => None,
    }
}

/// The claims of a token the service accepts at time `now`.
pub fn verify_token(token: &str, secret: &str, now: u64) -> (claims: Claims)
    requires
        now >= EXPIRY_LEEWAY_SECS,
        token_claims(token@, secret@, now) is Some,
    ensures
        Some(claims) == token_claims(token@, secret@, now),
{
    let decoded = jwt_decode(token, secret).unwrap();
    let sub = decoded.sub_number.unwrap();
    let exp = decoded.exp.unwrap();
    Claims { sub: sub as i32, exp: exp as usize }
}

/// A token accepted for `user_id` from `now` reads as that user's claims
/// with an expiry a day after `now`: at `now`, an hour later, and up to a
/// day and the one-minute leeway later; a second after that it is refused.
pub proof fn law_accepted_for_a_day(token: Seq<char>, secret: Seq<char>, now: u64, user_id: i32)
    requires
        accepted_for(token, secret, now, user_id),
        now >= 60,
        now + 86461 <= u64::MAX,
    ensures
        token_claims(token, secret, now) == Some(Claims { sub: user_id, exp: (now + 86400) as usize }),
        token_claims(token, secret, (now + 3600) as u64) == Some(
            Claims { sub: user_id, exp: (now + 86400) as usize },
        ),
        token_claims(token, secret, (now + 86460) as u64) == Some(
            Claims { sub: user_id, exp: (now + 86400) as usize },
        ),
        token_claims(token, secret, (now + 86461) as u64) is None,
{
    assert(token_claims(token, secret, now) == Some(Claims { sub: user_id, exp: (now + 86400) as usize }));
    assert(token_claims(token, secret, (now + 3600) as u64) == Some(
        Claims { sub: user_id, exp: (now + 86400) as usize },
    ));
    assert(token_claims(token, secret, (now + 86460) as u64) == Some(
        Claims { sub: user_id, exp: (now + 86400) as usize },
    ));
    assert(token_claims(token, secret, (now + 86461) as u64) is None);
}

/// A token is accepted at `now` only if it decodes under the secret to an
/// integer `sub` and an `exp` no earlier than a minute before `now`, and
/// then its claims are exactly those read; a token that fails to decode,
/// has no integer `sub`, or expired more than a minute ago is refused.
pub proof fn law_token_acceptance(token: Seq<char>, secret: Seq<char>, now: u64)
    requires
        now >= 60,
    ensures
        token_claims(token, secret, now) matches Some(c) ==> (spec_jwt_decode(token, secret) matches Some(
            (Some(sub), _, Some(exp)),
        ) && c.sub == sub && c.exp == exp && exp + 60 >= now),
        spec_jwt_decode(token, secret) is None ==> token_claims(token, secret, now) is None,
        (spec_jwt_decode(token, secret) matches Some((None, _, _))) ==> token_claims(token, secret, now) is None,
        (spec_jwt_decode(token, secret) matches Some((_, _, Some(exp))) && exp + 60 < now)
            ==> token_claims(token, secret, now) is None,
{
}

} // verus!
