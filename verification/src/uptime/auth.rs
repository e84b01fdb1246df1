//! Sign-up and sign-in of the uptime monitor, given what the database
//! returned.

use vstd::prelude::*;
use crate::http_status::{CONFLICT, CREATED, INTERNAL_SERVER_ERROR, NOT_FOUND, OK, UNAUTHORIZED};
use crate::password_hash::{
    bcrypt_prefix, hash_password, spec_bcrypt_verify, verify_password, PASSWORD_HASH_COST,
};
use crate::token::{expiry_for, spec_jwt_encode, SubjectView, TOKEN_LIFETIME_SECS};
use crate::uuid_text::uuid_hyphenated;
use super::common::{AuthResponse, UserResponse};
use super::jwt::{accepted_for, create_token};

verus! {

/// A user as stored: id, credentials and name.
pub struct UserRecord {
    pub id: u128,
    pub password_hash: String,
    pub name: String,
    pub email: String,
}

/// What looking up a user by email gave.
pub enum SigninLookup {
    Found(UserRecord),
    NotFound,
    Failed,
}

/// An answer: a status with a token response, or a status with text.
pub enum Reply {
    Auth(u16, AuthResponse),
    Text(u16, String),
}

/// The content of an answer: the token and the user's id, email and name,
/// or the text.
pub open spec fn reply_view(r: Reply) -> (u16, Result<(Seq<char>, u128, Seq<char>, Seq<char>), Seq<char>>) {
    match r {
        Reply::Auth(status, a) => (status, Ok((a.token@, a.user.id, a.user.email@, a.user.name@))),
        Reply::Text(status, t) => (status, Err(t@)),
    }
}

/// The token the service issues at `now` to user `id`.
pub open spec fn issued_token(id: u128, secret: Seq<char>, now: u64) -> Seq<char> {
    spec_jwt_encode(SubjectView::Text(uuid_hyphenated(id)), expiry_for(now), secret)
}

/// The token response for `user` issued at `now`.
pub open spec fn auth_content(id: u128, email: Seq<char>, name: Seq<char>, secret: Seq<char>, now: u64) -> Result<(Seq<char>, u128, Seq<char>, Seq<char>), Seq<char>> {
    Ok((issued_token(id, secret, now), id, email, name))
}

/// A token in the answer is not empty, and is accepted as a token of the
/// user it is sent with from `now` until a day (and the leeway) later.
pub open spec fn reply_token_accepted(r: Reply, secret: Seq<char>, now: u64) -> bool {
    r matches Reply::Auth(_, a) ==> a.token@.len() > 0 && accepted_for(a.token@, secret, now, a.user.id)
}

/// The bcrypt hash a new user's password is stored as (bcrypt's default
/// cost, a random salt): 60 characters beginning `$2b$12$`, so never the
/// password itself unless the password already has that form; `None` if no
/// salt could be drawn, on which the service aborts the sign-up.
pub fn hash_signup_password(password: &str) -> (hash: Option<String>)
    ensures
        hash matches Some(h) ==> {
            &&& spec_bcrypt_verify(password@, h@) == Some(true)
            &&& h@.len() == 60
            &&& h@.take(7) == bcrypt_prefix(PASSWORD_HASH_COST)
            &&& !(password@.len() == 60 && password@.take(7) == bcrypt_prefix(PASSWORD_HASH_COST))
                ==> h@ != password@
        },
{
    hash_password(password, PASSWORD_HASH_COST)
}

/// A token for `data`'s user issued at `now`, together with the user.
pub fn get_details(data: UserResponse, secret: &str, now: u64) -> (r: AuthResponse)
    requires
        now + TOKEN_LIFETIME_SECS <= usize::MAX,
    ensures
        r.token@ == issued_token(data.id, secret@, now),
        r.token@.len() > 0,
        accepted_for(r.token@, secret@, now, data.id),
        r.user == data,
{
    let token = create_token(data.id, secret, now);
    AuthResponse { token, user: data }
}

/// The answer to a sign-up whose insert gave `inserted` (`None` when the
/// database refused it): 201 with a token, or 409.
pub fn signup(inserted: Option<UserResponse>, secret: &str, now: u64) -> (r: Reply)
    requires
        now + TOKEN_LIFETIME_SECS <= usize::MAX,
    ensures
        reply_view(r) == match inserted {
            Some(u) => (CREATED, auth_content(u.id, u.email@, u.name@, secret@, now)),
            None => (CONFLICT, Err::<(Seq<char>, u128, Seq<char>, Seq<char>), Seq<char>>("user already exists"@)),
        },
        reply_token_accepted(r, secret@, now),
{
    match inserted {
        Some(user) => Reply::Auth(CREATED, get_details(user, secret, now)),
        None => Reply::Text(CONFLICT, String::from_str("user already exists")),
    }
}

/// The answer to a sign-in with `password` at `now`: 200 with a token for
/// the right password, 401 for a wrong one, 404 for an unknown email, 500
/// when the database failed; `None` when the stored hash is not a bcrypt
/// hash (the service aborts such a request).
pub open spec fn signin_reply(lookup: SigninLookup, password: Seq<char>, secret: Seq<char>, now: u64) -> Option<(u16, Result<(Seq<char>, u128, Seq<char>, Seq<char>), Seq<char>>)> {
    match lookup {
        SigninLookup::Found(u) => match spec_bcrypt_verify(password, u.password_hash@) {
            Some(true) => Some((OK, auth_content(u.id, u.email@, u.name@, secret, now))),
            Some(false) => Some((UNAUTHORIZED, Err("Invalid credentials"@))),
            None => None,
        },
        SigninLookup::NotFound => Some((NOT_FOUND, Err("User not found"@))),
        SigninLookup::Failed => Some((INTERNAL_SERVER_ERROR, Err("Internal server error"@))),
    }
}

/// The answer to a sign-in whose stored hash, if any, is well formed.
pub fn signin(lookup: SigninLookup, password: &str, secret: &str, now: u64) -> (r: Reply)
    requires
        now + TOKEN_LIFETIME_SECS <= usize::MAX,
        signin_reply(lookup, password@, secret@, now) is Some,
    ensures
        Some(reply_view(r)) == signin_reply(lookup, password@, secret@, now),
        reply_token_accepted(r, secret@, now),
{
    match lookup {
        SigninLookup::Found(user) => {
            let matches = verify_password(password, user.password_hash.as_str()).unwrap();
            if matches {
                let data = UserResponse { id: user.id, email: user.email, name: user.name };
                Reply::Auth(OK, get_details(data, secret, now))
            } else {
                Reply::Text(UNAUTHORIZED, String::from_str("Invalid credentials"))
            }
        },
        SigninLookup::NotFound => Reply::Text(NOT_FOUND, String::from_str("User not found")),
        SigninLookup::Failed => Reply::Text(INTERNAL_SERVER_ERROR, String::from_str("Internal server error")),
    }
}

/// Like [`signin`], for any lookup: `None` when the stored hash is not a
/// bcrypt hash.
pub fn try_signin(lookup: SigninLookup, password: &str, secret: &str, now: u64) -> (r: Option<Reply>)
    requires
        now + TOKEN_LIFETIME_SECS <= usize::MAX,
    ensures
        match r {
            Some(reply) => signin_reply(lookup, password@, secret@, now) == Some(reply_view(reply)),
            None => signin_reply(lookup, password@, secret@, now) is None,
        },
        r matches Some(reply) ==> reply_token_accepted(reply, secret@, now),
{
    let checkable = match &lookup {
        SigninLookup::Found(user) => verify_password(password, user.password_hash.as_str()).is_some(),
        _ => true,
    };
    if checkable {
        Some(signin(lookup, password, secret, now))
    } else {
        None
    }
}

/// The token the service issues names the user by the hyphenated text of
/// its UUID and expires exactly a day after `now`; a sign-in answers 200
/// with that token and the stored id, email and name only when bcrypt
/// accepts the password, 401 with `Invalid credentials` when it refuses
/// it, 404 for an unknown email and 500 when the database failed; a
/// sign-up answers 201 with a token for the inserted user, or 409.
pub proof fn law_auth_answers(
    user: UserRecord,
    inserted: UserResponse,
    password: Seq<char>,
    secret: Seq<char>,
    now: u64,
)
    requires
        now + 86400 <= u64::MAX,
    ensures
        issued_token(user.id, secret, now) == spec_jwt_encode(
            SubjectView::Text(uuid_hyphenated(user.id)),
            (now + 86400) as u64,
            secret,
        ),
        (signin_reply(SigninLookup::Found(user), password, secret, now) matches Some((status, _))
            && status == OK) <==> spec_bcrypt_verify(password, user.password_hash@) == Some(true),
        spec_bcrypt_verify(password, user.password_hash@) == Some(true) ==> signin_reply(
            SigninLookup::Found(user),
            password,
            secret,
            now,
        ) == Some(
            (
                OK,
                Ok::<(Seq<char>, u128, Seq<char>, Seq<char>), Seq<char>>(
                    (issued_token(user.id, secret, now), user.id, user.email@, user.name@),
                ),
            ),
        ),
        spec_bcrypt_verify(password, user.password_hash@) == Some(false) ==> signin_reply(
            SigninLookup::Found(user),
            password,
            secret,
            now,
        ) == Some((UNAUTHORIZED, Err::<(Seq<char>, u128, Seq<char>, Seq<char>), Seq<char>>("Invalid credentials"@))),
        signin_reply(SigninLookup::NotFound, password, secret, now) == Some(
            (NOT_FOUND, Err::<(Seq<char>, u128, Seq<char>, Seq<char>), Seq<char>>("User not found"@)),
        ),
        signin_reply(SigninLookup::Failed, password, secret, now) == Some(
            (INTERNAL_SERVER_ERROR, Err::<(Seq<char>, u128, Seq<char>, Seq<char>), Seq<char>>("Internal server error"@)),
        ),
        auth_content(inserted.id, inserted.email@, inserted.name@, secret, now) == Ok::<
            (Seq<char>, u128, Seq<char>, Seq<char>),
            Seq<char>,
        >((issued_token(inserted.id, secret, now), inserted.id, inserted.email@, inserted.name@)),
        OK == 200 && UNAUTHORIZED == 401 && NOT_FOUND == 404 && INTERNAL_SERVER_ERROR == 500
            && CREATED == 201 && CONFLICT == 409,
{
}

/// A user who signs in with the password they signed up with is let in:
/// the stored hash checks out against it, and the answer is 200 with a
/// token for that user.
pub proof fn law_signup_password_signs_in(user: UserRecord, password: Seq<char>, secret: Seq<char>, now: u64)
    requires
        spec_bcrypt_verify(password, user.password_hash@) == Some(true),
    ensures
        signin_reply(SigninLookup::Found(user), password, secret, now) == Some(
            (OK, auth_content(user.id, user.email@, user.name@, secret, now)),
        ),
{
}

} // verus!
