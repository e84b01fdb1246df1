use backend_lab::todo_backend::middleware::try_auth_middleware;
use backend_lab::http_status::{CREATED, INTERNAL_SERVER_ERROR, OK, UNAUTHORIZED};
use backend_lab::todo_backend::auth::check_token;
use backend_lab::todo_backend::handlers::{
    get_todo_by_id, reply_status, signinuser, signupuser, SigninLookup, Todo, TodoLookup, TodoRoute,
};
use backend_lab::todo_starter::{self, Reply};

const SECRET: &str = "s3cret";
const NOW: u64 = 1_700_000_000;

#[test]
fn signin_text_reports_id_and_a_working_token() {
    let text = signinuser(SigninLookup::Found(12), SECRET, NOW);
    let prefix = "User signed in successfully with id: 12, token: ";
    assert!(text.starts_with(prefix));
    let token = &text[prefix.len()..];
    assert_eq!(check_token(token, SECRET, NOW).map(|c| c.sub), Some(12));
    assert_eq!(signinuser(SigninLookup::NoMatch, SECRET, NOW), "Invalid email or password");
    assert_eq!(
        signinuser(SigninLookup::Failed("pool timed out".to_string()), SECRET, NOW),
        "Error signing in: pool timed out"
    );
}

#[test]
fn signup_text_reports_id_or_error() {
    let text = signupuser(Ok(-3), SECRET, NOW);
    assert!(text.starts_with("User created successfully with id: -3, token: "));
    assert_eq!(signupuser(Err("duplicate key".to_string()), SECRET, NOW), "Error creating user: duplicate key");
}

#[test]
fn todo_lookup_errors() {
    let todo = Todo {
        id: 5,
        title: "t".to_string(),
        description: "d".to_string(),
        tag: "g".to_string(),
        user_id: 1,
    };
    match get_todo_by_id(TodoLookup::Found(todo), 5) {
        Ok(t) => assert_eq!(t.id, 5),
        Err(_) => panic!("found todo expected"),
    }
    match get_todo_by_id(TodoLookup::RowNotFound, 77) {
        Err(e) => assert_eq!(e, "Todo not found either with id 77 or not in db"),
        Ok(_) => panic!("error expected"),
    }
    match get_todo_by_id(TodoLookup::Failed("boom".to_string()), 77) {
        Err(e) => assert_eq!(e, "boom"),
        Ok(_) => panic!("error expected"),
    }
}

#[test]
fn todo_route_statuses() {
    assert_eq!(reply_status(TodoRoute::Create, true), CREATED);
    assert_eq!(reply_status(TodoRoute::Get, true), OK);
    assert_eq!(reply_status(TodoRoute::GetAll, true), OK);
    assert_eq!(reply_status(TodoRoute::Update, true), OK);
    assert_eq!(reply_status(TodoRoute::Delete, true), OK);
    assert_eq!(reply_status(TodoRoute::Create, false), INTERNAL_SERVER_ERROR);
    assert_eq!(reply_status(TodoRoute::Delete, false), INTERNAL_SERVER_ERROR);
}

#[test]
fn starter_signin_and_signup_replies() {
    match todo_starter::signinuser(SigninLookup::Found(4), SECRET, NOW) {
        Reply::Auth(status, auth) => {
            assert_eq!(status, CREATED);
            assert_eq!(auth.user_id, 4);
            assert_eq!(check_token(&auth.token, SECRET, NOW).map(|c| c.sub), Some(4));
        },
        Reply::Text(..) => panic!("token expected"),
    }
    match todo_starter::signinuser(SigninLookup::NoMatch, SECRET, NOW) {
        Reply::Text(status, text) => {
            assert_eq!(status, UNAUTHORIZED);
            assert_eq!(text, "Invalid email or password");
        },
        Reply::Auth(..) => panic!("refusal expected"),
    }
    match todo_starter::signupuser(Err("db down".to_string()), SECRET, NOW) {
        Reply::Text(status, text) => {
            assert_eq!(status, INTERNAL_SERVER_ERROR);
            assert_eq!(text, "db down");
        },
        Reply::Auth(..) => panic!("error expected"),
    }
    match todo_starter::signupuser(Ok(8), SECRET, NOW) {
        Reply::Auth(status, auth) => {
            assert_eq!(status, CREATED);
            assert_eq!(auth.user_id, 8);
        },
        Reply::Text(..) => panic!("token expected"),
    }
}

#[test]
fn crud_lifecycle_decisions() {
    let token = match todo_starter::signupuser(Ok(31), SECRET, NOW) {
        Reply::Auth(status, auth) => {
            assert_eq!(status, CREATED);
            assert!(!auth.token.is_empty());
            auth.token
        },
        Reply::Text(..) => panic!("token expected"),
    };
    assert_eq!(try_auth_middleware(Some(&token), SECRET, NOW + 60), Some(Ok(31)));
    assert_eq!(reply_status(TodoRoute::Create, true), CREATED);
    let fetched = Todo {
        id: 1,
        title: "Lifecycle Task".to_string(),
        description: "Created during full cycle test".to_string(),
        tag: "lifecycle".to_string(),
        user_id: 31,
    };
    match get_todo_by_id(TodoLookup::Found(fetched), 1) {
        Ok(todo) => assert_eq!(todo.title, "Lifecycle Task"),
        Err(_) => panic!("todo expected"),
    }
    assert_eq!(reply_status(TodoRoute::Get, true), OK);
    assert_eq!(reply_status(TodoRoute::Update, true), OK);
    assert_eq!(reply_status(TodoRoute::GetAll, true), OK);
    assert_eq!(reply_status(TodoRoute::Delete, true), OK);
    let after_delete = get_todo_by_id(TodoLookup::RowNotFound, 1);
    assert!(after_delete.is_err());
    assert_eq!(reply_status(TodoRoute::Get, after_delete.is_ok()), INTERNAL_SERVER_ERROR);
}
