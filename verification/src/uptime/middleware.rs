//! Who a request to a protected route of the uptime monitor comes from:
//! the `Authorization` header must read `Bearer <token>`.

use vstd::prelude::*;
use crate::http_status::UNAUTHORIZED;
use crate::token::EXPIRY_LEEWAY_SECS;
use super::jwt::{check_token, token_user, verify_token};

verus! {

/// The text before the token in an `Authorization` header.
pub open spec fn bearer_prefix() -> Seq<char> {
    seq!['B', 'e', 'a', 'r', 'e', 'r', ' ']
}

/// The token of a `Bearer` header.
pub open spec fn bearer_token(header: Seq<char>) -> Option<Seq<char>> {
    if header.len() >= 7 && header.take(7) == bearer_prefix() {
        Some(header.skip(7))
    } else {
        None
    }
}

/// The decision on a request whose `Authorization` header is `header`
/// (`None` when missing or not visible text): the user of an accepted
/// token, 401 without a `Bearer` header, and `None` for a token the
/// service refuses (the service aborts such a request).
pub open spec fn header_decision(header: Option<Seq<char>>, secret: Seq<char>, now: u64) -> Option<
    Result<u128, u16>,
> {
    match header {
        None => Some(Err(UNAUTHORIZED)),
        Some(h) => match bearer_token(h) {
            None => Some(Err(UNAUTHORIZED)),
            Some(token) => match token_user(token, secret, now) {
                Some(user) => Some(Ok(user)),
                None => None,
            },
        },
    }
}

/// The text of an optional header.
pub open spec fn header_text(header: Option<&str>) -> Option<Seq<char>> {
    match header {
        Some(h) => Some(h@),
        None => None,
    }
}

/// The token of `header` if it starts with `Bearer `.
fn split_bearer(header: &str) -> (token: Option<&str>)
    ensures
        match token {
            Some(t) => bearer_token(header@) == Some(t@),
            None => bearer_token(header@) is None,
        },
{
    let n = header.unicode_len();
    if n < 7 {
        return None;
    }
    let prefix = String::from_str(header.substring_char(0, 7));
    let expected = String::from_str("Bearer ");
    proof {
        reveal_strlit("Bearer ");
        assert("Bearer "@ =~= bearer_prefix());
    }
    if prefix == expected {
        Some(header.substring_char(7, n))
    } else {
        None
    }
}

/// The user a request comes from, for a request whose bearer token, if
/// any, the service accepts.
pub fn auth_middleware(header: Option<&str>, secret: &str, now: u64) -> (decision: Result<u128, u16>)
    requires
        now >= EXPIRY_LEEWAY_SECS,
        header_decision(header_text(header), secret@, now) is Some,
    ensures
        Some(decision) == header_decision(header_text(header), secret@, now),
{
    match header {
        None => Err(UNAUTHORIZED),
        Some(h) => match split_bearer(h) {
            None => Err(UNAUTHORIZED),
            Some(token) => Ok(verify_token(token, secret, now)),
        },
    }
}

/// Like [`auth_middleware`], for any request: `None` when the token is refused.
pub fn try_auth_middleware(header: Option<&str>, secret: &str, now: u64) -> (decision: Option<
    Result<u128, u16>,
>)
    requires
        now >= EXPIRY_LEEWAY_SECS,
    ensures
        decision == header_decision(header_text(header), secret@, now),
{
    let accepted = match header {
        None => true,
        Some(h) => match split_bearer(h) {
            None => true,
            Some(token) => check_token(token, secret, now).is_some(),
        },
    };
    if accepted {
        Some(auth_middleware(header, secret, now))
    } else {
        None
    }
}

/// A request whose header is `Bearer ` followed by a token the service
/// still accepts is let through as the token's user.
pub proof fn law_bearer_token_authorizes(token: Seq<char>, secret: Seq<char>, now: u64, user: u128)
    requires
        token_user(token, secret, now) == Some(user),
    ensures
        header_decision(Some(bearer_prefix() + token), secret, now) == Some(Ok::<u128, u16>(user)),
{
    let h = bearer_prefix() + token;
    assert(h.take(7) =~= bearer_prefix());
    assert(h.skip(7) =~= token);
}

/// A header that does not start with `Bearer ` is refused with 401,
/// whatever follows.
pub proof fn law_non_bearer_header_is_unauthorized(header: Seq<char>, secret: Seq<char>, now: u64)
    requires
        !(header.len() >= 7 && header.take(7) == bearer_prefix()),
    ensures
        header_decision(Some(header), secret, now) == Some(Err::<u128, u16>(UNAUTHORIZED)),
{
}

/// A request whose header is `Bearer ` followed by a token the service
/// refuses gets no decision: the service aborts it rather than let it
/// through; and a missing header is refused with 401.
pub proof fn law_refused_bearer_token_gets_no_decision(token: Seq<char>, secret: Seq<char>, now: u64)
    requires
        token_user(token, secret, now) is None,
    ensures
        header_decision(Some(bearer_prefix() + token), secret, now) is None,
        header_decision(None, secret, now) == Some(Err::<u128, u16>(UNAUTHORIZED)),
{
    let h = bearer_prefix() + token;
    assert(h.take(7) =~= bearer_prefix());
    assert(h.skip(7) =~= token);
}

} // verus!
