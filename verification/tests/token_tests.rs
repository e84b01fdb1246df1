use backend_lab::http_status::UNAUTHORIZED;
use backend_lab::todo_backend::auth::{check_token, create_token, verify_token};
use backend_lab::todo_backend::middleware::{auth_middleware, try_auth_middleware};
use backend_lab::uptime::jwt as uptime_jwt;
use backend_lab::uptime::middleware::try_auth_middleware as try_bearer_middleware;

const SECRET: &str = "test-secret";
const NOW: u64 = 1_725_029_869;
const USER: u128 = 0x550e8400_e29b_41d4_a716_446655440000;

fn decoded_claims(token: &str) -> serde_json::Value {
    let key = jsonwebtoken::DecodingKey::from_secret(SECRET.as_bytes());
    let mut validation = jsonwebtoken::Validation::default();
    validation.validate_exp = false;
    jsonwebtoken::decode::<serde_json::Value>(token, &key, &validation).expect("decodes").claims
}

#[test]
fn todo_token_carries_user_and_expiry() {
    let token = create_token(42, SECRET, NOW);
    assert_eq!(token.split('.').count(), 3);
    let claims = check_token(&token, SECRET, NOW).expect("fresh token is accepted");
    assert_eq!(claims.sub, 42);
    assert_eq!(claims.exp, (NOW + 86400) as usize);
    let again = verify_token(&token, SECRET, NOW + 100);
    assert_eq!(again.sub, 42);
}

#[test]
fn todo_token_claims_are_sub_then_exp() {
    let token = create_token(-5, SECRET, NOW);
    let claims = decoded_claims(&token);
    let object = claims.as_object().expect("object");
    let keys: Vec<&String> = object.keys().collect();
    assert_eq!(keys, vec!["sub", "exp"]);
    assert_eq!(object["sub"].as_i64(), Some(-5));
    assert_eq!(object["exp"].as_u64(), Some(NOW + 86400));
}

#[test]
fn todo_token_expires_after_a_day_and_a_minute() {
    let token = create_token(1, SECRET, NOW);
    let exp = NOW + 86400;
    assert!(check_token(&token, SECRET, exp + 60).is_some());
    assert!(check_token(&token, SECRET, exp + 61).is_none());
}

#[test]
fn todo_token_is_refused_under_another_secret_or_when_mangled() {
    let token = create_token(1, SECRET, NOW);
    assert!(check_token(&token, "other-secret", NOW).is_none());
    assert!(check_token("not.a.token", SECRET, NOW).is_none());
    assert!(check_token("", SECRET, NOW).is_none());
}

#[test]
fn uptime_token_is_refused_by_the_todo_service() {
    let token = uptime_jwt::create_token(USER, SECRET, NOW);
    assert!(check_token(&token, SECRET, NOW).is_none());
}

#[test]
fn todo_middleware_decisions() {
    let token = create_token(9, SECRET, NOW);
    assert_eq!(try_auth_middleware(Some(&token), SECRET, NOW), Some(Ok(9)));
    assert_eq!(auth_middleware(Some(&token), SECRET, NOW), Ok(9));
    assert_eq!(try_auth_middleware(None, SECRET, NOW), Some(Err(UNAUTHORIZED)));
    assert_eq!(try_auth_middleware(Some("garbage"), SECRET, NOW), None);
    let bearer = format!("Bearer {}", token);
    assert_eq!(try_auth_middleware(Some(&bearer), SECRET, NOW), None);
}

#[test]
fn uptime_token_sub_is_hyphenated_lowercase() {
    let token = uptime_jwt::create_token(0, SECRET, NOW);
    assert_eq!(decoded_claims(&token)["sub"].as_str(), Some("00000000-0000-0000-0000-000000000000"));
    assert_eq!(uptime_jwt::check_token(&token, SECRET, NOW), Some(0));
}

#[test]
fn uptime_token_with_other_uuid_forms_is_accepted() {
    let key = jsonwebtoken::EncodingKey::from_secret(SECRET.as_bytes());
    for sub in ["550E8400E29B41D4A716446655440000", "{550e8400-e29b-41d4-a716-446655440000}"] {
        let mut claims = serde_json::Map::new();
        claims.insert("sub".to_string(), serde_json::Value::from(sub));
        claims.insert("exp".to_string(), serde_json::Value::from(NOW + 10));
        let token = jsonwebtoken::encode(
            &jsonwebtoken::Header::default(),
            &serde_json::Value::Object(claims),
            &key,
        )
        .unwrap();
        assert_eq!(uptime_jwt::check_token(&token, SECRET, NOW), Some(USER));
    }
    let mut claims = serde_json::Map::new();
    claims.insert("sub".to_string(), serde_json::Value::from("not-a-uuid"));
    claims.insert("exp".to_string(), serde_json::Value::from(NOW + 10));
    let token = jsonwebtoken::encode(&jsonwebtoken::Header::default(), &serde_json::Value::Object(claims), &key)
        .unwrap();
    assert_eq!(uptime_jwt::check_token(&token, SECRET, NOW), None);
}

#[test]
fn uptime_token_names_the_user() {
    let token = uptime_jwt::create_token(USER, SECRET, NOW);
    let claims = decoded_claims(&token);
    assert_eq!(claims["sub"].as_str(), Some("550e8400-e29b-41d4-a716-446655440000"));
    assert_eq!(uptime_jwt::check_token(&token, SECRET, NOW), Some(USER));
    assert_eq!(uptime_jwt::verify_token(&token, SECRET, NOW), USER);
    assert_eq!(uptime_jwt::check_token(&token, SECRET, NOW + 86400 + 61), None);
    let todo_token = create_token(3, SECRET, NOW);
    assert_eq!(uptime_jwt::check_token(&todo_token, SECRET, NOW), None);
}

#[test]
fn uptime_middleware_needs_a_bearer_header() {
    let token = uptime_jwt::create_token(USER, SECRET, NOW);
    let header = format!("Bearer {}", token);
    assert_eq!(try_bearer_middleware(Some(&header), SECRET, NOW), Some(Ok(USER)));
    assert_eq!(try_bearer_middleware(Some(&token), SECRET, NOW), Some(Err(UNAUTHORIZED)));
    assert_eq!(try_bearer_middleware(Some("bearer x"), SECRET, NOW), Some(Err(UNAUTHORIZED)));
    assert_eq!(try_bearer_middleware(Some("Bearer"), SECRET, NOW), Some(Err(UNAUTHORIZED)));
    assert_eq!(try_bearer_middleware(None, SECRET, NOW), Some(Err(UNAUTHORIZED)));
    assert_eq!(try_bearer_middleware(Some("Bearer junk"), SECRET, NOW), None);
}
