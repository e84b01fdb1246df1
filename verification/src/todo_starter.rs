//! The JSON variant of the todo service: sign-up and sign-in answer with
//! a status and a JSON token response.

use vstd::prelude::*;
use crate::http_status::{CREATED, INTERNAL_SERVER_ERROR, UNAUTHORIZED};
use crate::todo_backend::auth::{accepted_for, create_token};
use crate::todo_backend::handlers::SigninLookup;
use crate::token::{expiry_for, spec_jwt_encode, SubjectView, TOKEN_LIFETIME_SECS};

verus! {

/// What a client signs up with.
pub struct SignUpData {
    pub name: String,
    pub password: String,
    pub email: String,
}

/// What a client signs in with.
pub struct SignInData {
    pub password: String,
    pub email: String,
}

/// The token issued to a user, with the user's id.
pub struct AuthResponse {
    pub token: String,
    pub user_id: i32,
}

/// A stored todo.
pub struct Todo {
    pub id: i32,
    pub user_id: i32,
    pub title: String,
    pub description: String,
    pub tag: String,
}

/// An answer: a status with a token response, or a status with text.
pub enum Reply {
    Auth(u16, AuthResponse),
    Text(u16, String),
}

/// The answer's status, and its content: the token and user id, or the text.
pub open spec fn reply_view(r: Reply) -> (u16, Result<(Seq<char>, i32), Seq<char>>) {
    match r {
        Reply::Auth(status, a) => (status, Ok((a.token@, a.user_id))),
        Reply::Text(status, t) => (status, Err(t@)),
    }
}

/// The token response for user `id` issued at `now`.
pub open spec fn issued(id: i32, secret: Seq<char>, now: u64) -> Result<(Seq<char>, i32), Seq<char>> {
    Ok((spec_jwt_encode(SubjectView::Number(id), expiry_for(now), secret), id))
}

/// A token in the answer is not empty, and is accepted with the claims of
/// the user id it is sent with from `now` until a day (and the leeway) later.
pub open spec fn reply_token_accepted(r: Reply, secret: Seq<char>, now: u64) -> bool {
    r matches Reply::Auth(_, a) ==> a.token@.len() > 0 && accepted_for(a.token@, secret, now, a.user_id)
}

fn auth_reply(id: i32, secret: &str, now: u64) -> (r: Reply)
    requires
        now + TOKEN_LIFETIME_SECS <= usize::MAX,
    ensures
        reply_view(r) == (CREATED, issued(id, secret@, now)),
        reply_token_accepted(r, secret@, now),
{
    let token = create_token(id, secret, now);
    Reply::Auth(CREATED, AuthResponse { token, user_id: id })
}

/// The answer to a sign-in at time `now`: 201 with a token, 401 for wrong
/// credentials, 500 with the database error.
pub fn signinuser(lookup: SigninLookup, secret: &str, now: u64) -> (r: Reply)
    requires
        now + TOKEN_LIFETIME_SECS <= usize::MAX,
    ensures
        reply_view(r) == match lookup {
            SigninLookup::Found(id) => (CREATED, issued(id, secret@, now)),
            SigninLookup::NoMatch => (UNAUTHORIZED, Err("Invalid email or password"@)),
            SigninLookup::Failed(e) => (INTERNAL_SERVER_ERROR, Err(e@)),
        },
        reply_token_accepted(r, secret@, now),
{
    match lookup {
        SigninLookup::Found(id) => auth_reply(id, secret, now),
        SigninLookup::NoMatch => Reply::Text(UNAUTHORIZED, String::from_str("Invalid email or password")),
        SigninLookup::Failed(e) => Reply::Text(INTERNAL_SERVER_ERROR, e),
    }
}

/// The answer to a sign-up at time `now`: 201 with a token for the new
/// user, 500 with the database error.
pub fn signupuser(created: Result<i32, String>, secret: &str, now: u64) -> (r: Reply)
    requires
        now + TOKEN_LIFETIME_SECS <= usize::MAX,
    ensures
        reply_view(r) == match created {
            Ok(id) => (CREATED, issued(id, secret@, now)),
            Err(e) => (INTERNAL_SERVER_ERROR, Err(e@)),
        },
        reply_token_accepted(r, secret@, now),
{
    match created {
        Ok(id) => auth_reply(id, secret, now),
        Err(e) => Reply::Text(INTERNAL_SERVER_ERROR, e),
    }
}

/// A successful sign-in or sign-up answers 201 with the user's id and a
/// token for that user expiring exactly a day after `now`; a refused
/// sign-in answers 401, and a database error 500 with the error's text.
pub proof fn law_json_answers(id: i32, secret: Seq<char>, now: u64)
    requires
        now + 86400 <= u64::MAX,
    ensures
        issued(id, secret, now) == Ok::<(Seq<char>, i32), Seq<char>>(
            (spec_jwt_encode(SubjectView::Number(id), (now + 86400) as u64, secret), id),
        ),
        CREATED == 201 && UNAUTHORIZED == 401 && INTERNAL_SERVER_ERROR == 500,
{
}

} // verus!
