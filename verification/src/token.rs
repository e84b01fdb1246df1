//! Signed session tokens (JSON Web Tokens, HS256) as the `jsonwebtoken`
//! crate makes and reads them, and the expiry rule the services apply.
//!
//! A token carries two claims: `sub`, the user it was issued to, and
//! `exp`, the second (Unix time) after which it is no longer accepted,
//! give or take a leeway of one minute.

use vstd::prelude::*;

verus! {

/// How long a token stays valid after it is issued: one day.
pub const TOKEN_LIFETIME_SECS: u64 = 86400;

/// How far past `exp` a token is still accepted, as `jsonwebtoken`'s
/// default validation allows.
pub const EXPIRY_LEEWAY_SECS: u64 = 60;

/// The `sub` claim: a numeric user id or a textual one.
pub enum Subject {
    Number(i32),
    Text(String),
}

/// The content of a `sub` claim.
pub enum SubjectView {
    Number(i32),
    Text(Seq<char>),
}

impl View for Subject {
    type V = SubjectView;

    open spec fn view(&self) -> SubjectView {
        match self {
            Subject::Number(n) => SubjectView::Number(*n),
            Subject::Text(t) => SubjectView::Text(t@),
        }
    }
}

/// The claims of a token whose signature checked out: `sub` if it is an
/// integer, `sub` if it is text, and `exp` if it is an unsigned integer.
pub struct DecodedClaims {
    pub sub_number: Option<i64>,
    pub sub_text: Option<String>,
    pub exp: Option<u64>,
}

impl View for DecodedClaims {
    type V = (Option<i64>, Option<Seq<char>>, Option<u64>);

    open spec fn view(&self) -> (Option<i64>, Option<Seq<char>>, Option<u64>) {
        (
            self.sub_number,
            match self.sub_text {
                Some(t) => Some(t@),
                None => None,
            },
            self.exp,
        )
    }
}

/// The token `jsonwebtoken::encode` makes for the claims `sub` and `exp`
/// (in that order) with the default header and the HMAC key `secret`.
pub uninterp spec fn spec_jwt_encode(sub: SubjectView, exp: u64, secret: Seq<char>) -> Seq<char>;

/// What `jsonwebtoken::decode` reads from `token` under the HMAC key
/// `secret` with expiry left unchecked: `None` when the token is refused,
/// else its `sub` as integer, its `sub` as text and its `exp`.
pub uninterp spec fn spec_jwt_decode(token: Seq<char>, secret: Seq<char>) -> Option<
    (Option<i64>, Option<Seq<char>>, Option<u64>),
>;

/// The claims as decoding reads them back from a token made for `sub` and `exp`.
pub open spec fn claims_of(sub: SubjectView, exp: u64) -> (Option<i64>, Option<Seq<char>>, Option<u64>) {
    match sub {
        SubjectView::Number(n) => (Some(n as i64), None, Some(exp)),
        SubjectView::Text(t) => (None, Some(t), Some(exp)),
    }
}

/// A token with expiry `exp` is still accepted at time `now`
/// (for `now` of at least the leeway).
pub open spec fn unexpired(exp: u64, now: u64) -> bool {
    exp >= now - EXPIRY_LEEWAY_SECS
}

/// The expiry of a token issued at `now`.
pub open spec fn expiry_for(now: u64) -> u64 {
    (now + TOKEN_LIFETIME_SECS) as u64
}

/// Makes a token with `jsonwebtoken::encode`, default header (HS256) and
/// the claims `{"sub": sub, "exp": exp}` keyed with `secret`.
/// Trusted: the token is what `spec_jwt_encode` names; it is not empty (it
/// is three base64url parts joined by dots); and decoding it with the same
/// secret gives back exactly these claims (the signature matches, `exp` is
/// present and numeric, and there is no audience claim).
#[verifier::external_body]
pub(crate) fn jwt_encode(sub: &Subject, exp: u64, secret: &str) -> (token: String)
    ensures
        token@ == spec_jwt_encode(sub@, exp, secret@),
        token@.len() > 0,
        spec_jwt_decode(token@, secret@) == Some(claims_of(sub@, exp)),
{
    let mut claims = serde_json::Map::new();
    let sub_value = match sub {
        Subject::Number(n) => serde_json::Value::from(*n),
        Subject::Text(t) => serde_json::Value::from(t.as_str()),
    };
    claims.insert("sub".to_string(), sub_value);
    claims.insert("exp".to_string(), serde_json::Value::from(exp));
    let key = jsonwebtoken::EncodingKey::from_secret(secret.as_bytes());
    jsonwebtoken::encode(&jsonwebtoken::Header::default(), &serde_json::Value::Object(claims), &key)
        .unwrap()
}

/// Reads a token with `jsonwebtoken::decode` under the default validation
/// (HS256, `exp` required) but with the expiry check switched off: the
/// services check expiry themselves against the time they are given.
/// Trusted: the result is what `spec_jwt_decode` names.
#[verifier::external_body]
pub(crate) fn jwt_decode(token: &str, secret: &str) -> (claims: Option<DecodedClaims>)
    ensures
        match claims {
            Some(c) => spec_jwt_decode(token@, secret@) == Some(c@),
            None => spec_jwt_decode(token@, secret@) is None,
        },
{
    let mut validation = jsonwebtoken::Validation::default();
    validation.validate_exp = false;
    let key = jsonwebtoken::DecodingKey::from_secret(secret.as_bytes());
    match jsonwebtoken::decode::<serde_json::Value>(token, &key, &validation) {
        Ok(data) => Some(DecodedClaims {
            sub_number: data.claims.get("sub").and_then(serde_json::Value::as_i64),
            sub_text: data.claims.get("sub").and_then(serde_json::Value::as_str).map(str::to_string),
            exp: data.claims.get("exp").and_then(serde_json::Value::as_u64),
        }),
        Err(_) => None,
    }
}

} // verus!
