//! Who a request to a protected route of the todo service comes from.

use vstd::prelude::*;
use crate::http_status::UNAUTHORIZED;
use crate::token::EXPIRY_LEEWAY_SECS;
use super::auth::{check_token, token_claims, verify_token, Claims};

verus! {

/// The decision on a request whose `Authorization` header is `header`
/// (`None` when missing or not visible text): the user id of an accepted
/// token, 401 without a header, and `None` for a token the service refuses
/// (the service aborts such a request).
pub open spec fn header_decision(header: Option<Seq<char>>, secret: Seq<char>, now: u64) -> Option<
    Result<i32, u16>,
> {
    match header {
        None => Some(Err(UNAUTHORIZED)),
        Some(token) => match token_claims(token, secret, now) {
            Some(claims) => Some(Ok(claims.sub)),
            None => None,
        },
    }
}

/// The text of an optional header.
pub open spec fn header_text(header: Option<&str>) -> Option<Seq<char>> {
    match header {
        Some(h) => Some(h@),
        None => None,
    }
}

/// The user a request comes from, for a request whose token, if any, the
/// service accepts; the whole header is the token.
pub fn auth_middleware(header: Option<&str>, secret: &str, now: u64) -> (decision: Result<i32, u16>)
    requires
        now >= EXPIRY_LEEWAY_SECS,
        header_decision(header_text(header), secret@, now) is Some,
    ensures
        Some(decision) == header_decision(header_text(header), secret@, now),
{
    match header {
        Some(token) => Ok(verify_token(token, secret, now).sub),
        None => Err(UNAUTHORIZED),
    }
}

/// Like [`auth_middleware`], for any request: `None` when the token is refused.
pub fn try_auth_middleware(header: Option<&str>, secret: &str, now: u64) -> (decision: Option<
    Result<i32, u16>,
>)
    requires
        now >= EXPIRY_LEEWAY_SECS,
    ensures
        decision == header_decision(header_text(header), secret@, now),
{
    let accepted = match header {
        Some(token) => check_token(token, secret, now).is_some(),
        None => true,
    };
    if accepted {
        Some(auth_middleware(header, secret, now))
    } else {
        None
    }
}

/// A request whose `Authorization` header holds a token the service still
/// accepts is let through as the token's user.
pub proof fn law_accepted_token_authorizes(token: Seq<char>, secret: Seq<char>, now: u64, claims: Claims)
    requires
        token_claims(token, secret, now) == Some(claims),
    ensures
        header_decision(Some(token), secret, now) == Some(Ok::<i32, u16>(claims.sub)),
{
}

/// A request without an `Authorization` header is refused with 401.
pub proof fn law_missing_header_is_unauthorized(secret: Seq<char>, now: u64)
    ensures
        header_decision(None, secret, now) == Some(Err::<i32, u16>(UNAUTHORIZED)),
{
}

/// A request whose header holds a token the service refuses gets no
/// decision: the service aborts it rather than let it through.
pub proof fn law_refused_token_gets_no_decision(token: Seq<char>, secret: Seq<char>, now: u64)
    requires
        token_claims(token, secret, now) is None,
    ensures
        header_decision(Some(token), secret, now) is None,
{
}

} // verus!
