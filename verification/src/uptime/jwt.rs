//! Tokens of the uptime monitor: the `sub` claim is the user's UUID as text.

use vstd::prelude::*;
use crate::token::{
    expiry_for, jwt_decode, jwt_encode, spec_jwt_decode, spec_jwt_encode, unexpired, Subject,
    SubjectView, EXPIRY_LEEWAY_SECS, TOKEN_LIFETIME_SECS,
};
use crate::uuid_text::{spec_uuid_parse, uuid_hyphenated, uuid_parse, uuid_to_string};

verus! {

/// The claims of an uptime-monitor token.
pub struct Claims {
    pub sub: String,
    pub exp: usize,
}

/// The user a token names if the service accepts it at time `now`: the
/// signature checks out under `secret`, `sub` is text that reads as a UUID,
/// `exp` fits a `usize`, and the token has not expired.
pub open spec fn token_user(token: Seq<char>, secret: Seq<char>, now: u64) -> Option<u128> {
    match spec_jwt_decode(token, secret) {
        Some((_, Some(sub), Some(exp))) => {
            if exp <= usize::MAX && unexpired(exp, now) {
                spec_uuid_parse(sub)
            } else {
                None
            }
        },
        _ => None,
    }
}

/// `token`, issued at `now`, is accepted as a token of `user_id` at every
/// time `later` (from the leeway on) until a day and the leeway have
/// passed, and refused from then on.
pub open spec fn accepted_for(token: Seq<char>, secret: Seq<char>, now: u64, user_id: u128) -> bool {
    forall|later: u64|
        later >= EXPIRY_LEEWAY_SECS ==> #[trigger] token_user(token, secret, later) == if later
            - EXPIRY_LEEWAY_SECS <= now + TOKEN_LIFETIME_SECS {
            Some(user_id)
        } else {
            None
        }
}

/// Issues a token for user `user_id` at time `now` (Unix seconds) that
/// expires a day later.
pub fn create_token(user_id: u128, secret: &str, now: u64) -> (token: String)
    requires
        now + TOKEN_LIFETIME_SECS <= usize::MAX,
    ensures
        token@ == spec_jwt_encode(
            SubjectView::Text(uuid_hyphenated(user_id)),
            expiry_for(now),
            secret@,
        ),
        token@.len() > 0,
        accepted_for(token@, secret@, now, user_id),
{
    let sub = uuid_to_string(user_id);
    let exp = now + TOKEN_LIFETIME_SECS;
    jwt_encode(&Subject::Text(sub), exp, secret)
}

/// The user of `token` if the service accepts it at time `now`, else `None`.
pub fn check_token(token: &str, secret: &str, now: u64) -> (user: Option<u128>)
    requires
        now >= EXPIRY_LEEWAY_SECS,
    ensures
        user == token_user(token@, secret@, now),
{
    match jwt_decode(token, secret) {
        Some(decoded) => match (decoded.sub_text, decoded.exp) {
            (Some(sub), Some(exp)) => {
                if exp <= usize::MAX as u64 && exp >= now - EXPIRY_LEEWAY_SECS && uuid_parse(
                    sub.as_str(),
                ).is_some() {
                    Some(verify_token(token, secret, now))
                } else {
                    None
                }
            },
            _ => None,
        },
        None => None,
    }
}

/// The user of a token the service accepts at time `now`.
pub fn verify_token(token: &str, secret: &str, now: u64) -> (user: u128)
    requires
        now >= EXPIRY_LEEWAY_SECS,
        token_user(token@, secret@, now) is Some,
    ensures
        Some(user) == token_user(token@, secret@, now),
{
    let decoded = jwt_decode(token, secret).unwrap();
    let sub = decoded.sub_text.unwrap();
    uuid_parse(sub.as_str()).unwrap()
}

/// A token accepted for `user_id` from `now` names that user at `now`, an
/// hour later, and up to a day and the one-minute leeway later; a second
/// after that it is refused.
pub proof fn law_accepted_for_a_day(token: Seq<char>, secret: Seq<char>, now: u64, user_id: u128)
    requires
        accepted_for(token, secret, now, user_id),
        now >= 60,
        now + 86461 <= u64::MAX,
    ensures
        token_user(token, secret, now) == Some(user_id),
        token_user(token, secret, (now + 3600) as u64) == Some(user_id),
        token_user(token, secret, (now + 86460) as u64) == Some(user_id),
        token_user(token, secret, (now + 86461) as u64) is None,
{
    assert(token_user(token, secret, now) == Some(user_id));
    assert(token_user(token, secret, (now + 3600) as u64) == Some(user_id));
    assert(token_user(token, secret, (now + 86460) as u64) == Some(user_id));
    assert(token_user(token, secret, (now + 86461) as u64) is None);
}

/// A token is accepted at `now` only if it decodes under the secret to a
/// textual `sub` that reads as a UUID and an `exp` no earlier than a minute
/// before `now`, and then it names exactly that UUID; a token that fails
/// to decode, has no textual `sub`, or expired more than a minute ago is
/// refused.
pub proof fn law_token_acceptance(token: Seq<char>, secret: Seq<char>, now: u64)
    requires
        now >= 60,
    ensures
        token_user(token, secret, now) matches Some(u) ==> (spec_jwt_decode(token, secret) matches Some(
            (_, Some(sub), Some(exp)),
        ) && spec_uuid_parse(sub) == Some(u) && exp + 60 >= now),
        spec_jwt_decode(token, secret) is None ==> token_user(token, secret, now) is None,
        (spec_jwt_decode(token, secret) matches Some((_, None, _))) ==> token_user(token, secret, now) is None,
        (spec_jwt_decode(token, secret) matches Some((_, _, Some(exp))) && exp + 60 < now)
            ==> token_user(token, secret, now) is None,
{
}

} // verus!
