//! What the todo service answers, given what the database returned.

use vstd::prelude::*;
use crate::http_status::{CREATED, INTERNAL_SERVER_ERROR, OK};
use crate::numfmt::{push_i64, signed_decimal};
use crate::token::{SubjectView, spec_jwt_encode, expiry_for, TOKEN_LIFETIME_SECS};
use super::auth::{accepted_for, create_token};

verus! {

/// The fields of a todo a client sends.
pub struct TodoData {
    pub title: String,
    pub description: String,
    pub tag: String,
}

/// A stored todo.
pub struct Todo {
    pub id: i32,
    pub title: String,
    pub description: String,
    pub tag: String,
    pub user_id: i32,
}

/// The credentials a client signs up or signs in with.
pub struct UserData {
    pub name: String,
    pub password: String,
    pub email: String,
}

/// What looking up a user by email and password gave.
pub enum SigninLookup {
    Found(i32),
    NoMatch,
    Failed(String),
}

/// What looking up one todo gave.
pub enum TodoLookup {
    Found(Todo),
    RowNotFound,
    Failed(String),
}

/// The routes that operate on todos.
pub enum TodoRoute {
    GetAll,
    Create,
    Get,
    Update,
    Delete,
}

/// The answer to a sign-in: a greeting with the id and a fresh token, a
/// refusal, or the database error.
pub open spec fn signin_text(lookup: SigninLookup, secret: Seq<char>, now: u64) -> Seq<char> {
    match lookup {
        SigninLookup::Found(id) => "User signed in successfully with id: "@ + signed_decimal(
            id as int,
        ) + ", token: "@ + spec_jwt_encode(SubjectView::Number(id), expiry_for(now), secret),
        SigninLookup::NoMatch => "Invalid email or password"@,
        SigninLookup::Failed(e) => "Error signing in: "@ + e@,
    }
}

/// The answer to a sign-up: the new id and a fresh token, or the database error.
pub open spec fn signup_text(created: Result<i32, String>, secret: Seq<char>, now: u64) -> Seq<char> {
    match created {
        Ok(id) => "User created successfully with id: "@ + signed_decimal(id as int)
            + ", token: "@ + spec_jwt_encode(SubjectView::Number(id), expiry_for(now), secret),
        Err(e) => "Error creating user: "@ + e@,
    }
}

/// The token issued to user `id` at `now`.
pub open spec fn issued_token(id: i32, secret: Seq<char>, now: u64) -> Seq<char> {
    spec_jwt_encode(SubjectView::Number(id), expiry_for(now), secret)
}

/// The token a successful sign-in or sign-up of user `id` answers with at
/// `now` is not empty and is accepted with that user's claims until a day
/// (and the leeway) later.
pub open spec fn issued_token_accepted(id: i32, secret: Seq<char>, now: u64) -> bool {
    &&& issued_token(id, secret, now).len() > 0
    &&& accepted_for(issued_token(id, secret, now), secret, now, id)
}

/// `greeting`, the decimal id, `", token: "` and a token issued for `id` at `now`.
fn greeting_with_token(greeting: &str, id: i32, secret: &str, now: u64) -> (s: String)
    requires
        now + TOKEN_LIFETIME_SECS <= usize::MAX,
    ensures
        s@ == greeting@ + signed_decimal(id as int) + ", token: "@ + issued_token(id, secret@, now),
        issued_token_accepted(id, secret@, now),
{
    let mut s = String::from_str(greeting);
    push_i64(&mut s, id as i64);
    s.append(", token: ");
    let token = create_token(id, secret, now);
    s.append(token.as_str());
    s
}

/// The text a sign-in answers with at time `now`.
pub fn signinuser(lookup: SigninLookup, secret: &str, now: u64) -> (text: String)
    requires
        now + TOKEN_LIFETIME_SECS <= usize::MAX,
    ensures
        text@ == signin_text(lookup, secret@, now),
        lookup matches SigninLookup::Found(id) ==> issued_token_accepted(id, secret@, now),
        lookup matches SigninLookup::Found(id) ==> exists|token: Seq<char>|
            #[trigger] accepted_for(token, secret@, now, id) && token.len() > 0 && text@
                == "User signed in successfully with id: "@ + signed_decimal(id as int) + ", token: "@
                + token,
{
    match lookup {
        SigninLookup::Found(id) => greeting_with_token(
            "User signed in successfully with id: ",
            id,
            secret,
            now,
        ),
        SigninLookup::NoMatch => String::from_str("Invalid email or password"),
        SigninLookup::Failed(e) => {
            let mut s = String::from_str("Error signing in: ");
            s.append(e.as_str());
            s
        },
    }
}

/// The text a sign-up answers with at time `now`.
pub fn signupuser(created: Result<i32, String>, secret: &str, now: u64) -> (text: String)
    requires
        now + TOKEN_LIFETIME_SECS <= usize::MAX,
    ensures
        text@ == signup_text(created, secret@, now),
        created matches Ok(id) ==> issued_token_accepted(id, secret@, now),
        created matches Ok(id) ==> exists|token: Seq<char>|
            #[trigger] accepted_for(token, secret@, now, id) && token.len() > 0 && text@
                == "User created successfully with id: "@ + signed_decimal(id as int) + ", token: "@
                + token,
{
    match created {
        Ok(id) => greeting_with_token("User created successfully with id: ", id, secret, now),
        Err(e) => {
            let mut s = String::from_str("Error creating user: ");
            s.append(e.as_str());
            s
        },
    }
}

/// The result of fetching todo `todo_id`: the todo, or the error text.
pub open spec fn todo_by_id_result(lookup: TodoLookup, todo_id: i32) -> Result<Todo, Seq<char>> {
    match lookup {
        TodoLookup::Found(todo) => Ok(todo),
        TodoLookup::RowNotFound => Err(
            "Todo not found either with id "@ + signed_decimal(todo_id as int) + " or not in db"@,
        ),
        TodoLookup::Failed(e) => Err(e@),
    }
}

/// The todo `todo_id`, or the text of why there is none.
pub fn get_todo_by_id(lookup: TodoLookup, todo_id: i32) -> (r: Result<Todo, String>)
    ensures
        match r {
            Ok(todo) => todo_by_id_result(lookup, todo_id) == Ok::<Todo, Seq<char>>(todo),
            Err(e) => todo_by_id_result(lookup, todo_id) == Err::<Todo, Seq<char>>(e@),
        },
{
    match lookup {
        TodoLookup::Found(todo) => Ok(todo),
        TodoLookup::RowNotFound => {
            let mut s = String::from_str("Todo not found either with id ");
            push_i64(&mut s, todo_id as i64);
            s.append(" or not in db");
            Err(s)
        },
        TodoLookup::Failed(e) => Err(e),
    }
}

/// The status a todo route answers with: 201 for a created todo, 200 for
/// any other success, 500 when the database failed.
pub fn reply_status(route: TodoRoute, succeeded: bool) -> (status: u16)
    ensures
        status == if !succeeded {
            INTERNAL_SERVER_ERROR
        } else if route is Create {
            CREATED
        } else {
            OK
        },
{
    if !succeeded {
        INTERNAL_SERVER_ERROR
    } else {
        match route {
            TodoRoute::Create => CREATED,
            _ => OK,
        }
    }
}

/// A fetched todo is answered exactly as it was stored, every field
/// unchanged; a missing one with a text naming its id; a database error
/// with the error's own text.
pub proof fn law_found_todo_returned_unchanged(t: Todo, todo_id: i32, e: String)
    ensures
        todo_by_id_result(TodoLookup::Found(t), todo_id) == Ok::<Todo, Seq<char>>(t),
        todo_by_id_result(TodoLookup::Found(t), todo_id) matches Ok(r) && r.id == t.id && r.title
            == t.title && r.description == t.description && r.tag == t.tag && r.user_id == t.user_id,
        todo_by_id_result(TodoLookup::Failed(e), todo_id) == Err::<Todo, Seq<char>>(e@),
        todo_by_id_result(TodoLookup::RowNotFound, todo_id) is Err,
{
}

/// A successful sign-in or sign-up answers with the user's id and a token
/// for that user whose expiry is exactly a day after `now`; a refused
/// sign-in and a failed one carry no token.
pub proof fn law_answers_carry_a_day_token(id: i32, secret: Seq<char>, now: u64, e: String)
    requires
        now + 86400 <= u64::MAX,
    ensures
        signin_text(SigninLookup::Found(id), secret, now) == "User signed in successfully with id: "@
            + signed_decimal(id as int) + ", token: "@ + spec_jwt_encode(
            SubjectView::Number(id),
            (now + 86400) as u64,
            secret,
        ),
        signup_text(Ok(id), secret, now) == "User created successfully with id: "@ + signed_decimal(
            id as int,
        ) + ", token: "@ + spec_jwt_encode(SubjectView::Number(id), (now + 86400) as u64, secret),
        issued_token(id, secret, now) == spec_jwt_encode(
            SubjectView::Number(id),
            (now + 86400) as u64,
            secret,
        ),
        signin_text(SigninLookup::NoMatch, secret, now) == "Invalid email or password"@,
        signin_text(SigninLookup::Failed(e), secret, now) == "Error signing in: "@ + e@,
        signup_text(Err(e), secret, now) == "Error creating user: "@ + e@,
{
}

} // verus!
