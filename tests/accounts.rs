use task_api::auth::{grant_login, issue_claims, login, resolve_subject, subject_of, BearerCheck, Claims, TOKEN_TTL_SECONDS};
use task_api::error::{ApiError, StoreError};
use task_api::user::{register, update_user, CreateUser, LoginUser, User, UserId};

const SECRET: &str = "s3cret-signing-key";
const ID: u128 = 0x550e8400_e29b_41d4_a716_446655440000;

fn account(name: &str, email: &str, password: &str) -> CreateUser {
    CreateUser { name: name.to_string(), email: email.to_string(), password: password.to_string(), image: None }
}

fn stored_user(password: &str) -> User {
    User {
        id: ID,
        name: "Alice Liddell".to_string(),
        email: "alice@example.com".to_string(),
        password: bcrypt::hash(password, 4).unwrap(),
        image: Some("me.png".to_string()),
    }
}

#[test]
fn validation_messages_in_order() {
    let e = account("short", "x", "y").validate().unwrap_err();
    assert_eq!(e, "The name must contains more than 8 letters.");
    let e = account("long enough", "a@b.io", "y").validate().unwrap_err();
    assert_eq!(e, "The email must contains more than 10 letters.");
    let e = account("long enough", "alice@example.com", "short").validate().unwrap_err();
    assert_eq!(e, "The password must contains more than 8 letters.");
    let ok = account("12345678", "1234567890", "12345678").validate().unwrap();
    assert_eq!(ok.name, "12345678");
    assert_eq!(ok.email, "1234567890");
    assert_eq!(ok.password, "12345678");
}

#[test]
fn register_refuses_invalid_and_hashes_valid() {
    assert!(matches!(register(&account("short", "x", "y")), Err(ApiError::UnprocessableEntity(Some(_)))));
    let row = register(&account("Alice Liddell", "alice@example.com", "wonderland")).unwrap();
    assert_eq!(row.name, "Alice Liddell");
    assert_eq!(row.email, "alice@example.com");
    assert_ne!(row.password, "wonderland");
    assert!(bcrypt::verify("wonderland", &row.password).unwrap());
}

#[test]
fn update_user_hashes_password() {
    let row = update_user(&account("Bob", "b", "pw")).unwrap();
    assert_eq!(row.name, "Bob");
    assert_ne!(row.password, "pw");
    assert!(bcrypt::verify("pw", &row.password).unwrap());
}

#[test]
fn login_never_reveals_unknown_email() {
    let body = LoginUser { email: "nobody@example.com".to_string(), password: "whatever1".to_string() };
    match login(&body, None, SECRET) {
        Err(ApiError::Forbidden(Some(m))) => assert_eq!(m, "Incorrect email or password!"),
        other => panic!("unexpected {:?}", other),
    }
    let wrong = LoginUser { email: "alice@example.com".to_string(), password: "guess".to_string() };
    match login(&wrong, Some(stored_user("wonderland")), SECRET) {
        Err(ApiError::Forbidden(Some(m))) => assert_eq!(m, "Incorrect email or password!"),
        other => panic!("unexpected {:?}", other),
    }
}

#[test]
fn login_grants_info_without_password() {
    let body = LoginUser { email: "alice@example.com".to_string(), password: "wonderland".to_string() };
    let grant = login(&body, Some(stored_user("wonderland")), SECRET).unwrap();
    assert_eq!(grant.user.name, "Alice Liddell");
    assert_eq!(grant.user.email, "alice@example.com");
    assert_eq!(grant.user.image.as_deref(), Some("me.png"));
    assert_eq!(grant.claims.sub, "550e8400-e29b-41d4-a716-446655440000");
    assert!(grant.claims.exp > 1_700_000_000);
}

#[test]
fn granted_token_is_signed_with_the_secret() {
    let grant = grant_login(&stored_user("pw"), 1_700_000_000, SECRET).unwrap();
    let mut validation = jsonwebtoken::Validation::default();
    validation.validate_exp = false;
    let key = jsonwebtoken::DecodingKey::from_secret(SECRET.as_bytes());
    let data = jsonwebtoken::decode::<serde_json::Map<String, serde_json::Value>>(&grant.token, &key, &validation).unwrap();
    assert_eq!(data.claims.get("sub").and_then(|v| v.as_str()), Some("550e8400-e29b-41d4-a716-446655440000"));
    assert_eq!(data.claims.get("exp").and_then(|v| v.as_u64()), Some(1_700_007_200));
    let other = jsonwebtoken::DecodingKey::from_secret(b"another key");
    assert!(jsonwebtoken::decode::<serde_json::Map<String, serde_json::Value>>(&grant.token, &other, &validation).is_err());
}

#[test]
fn grant_expires_after_two_hours() {
    let grant = grant_login(&stored_user("pw"), 1_700_000_000, SECRET).unwrap();
    assert_eq!(grant.claims.exp, 1_700_007_200);
    assert!(matches!(grant_login(&stored_user("pw"), i64::MAX, SECRET), Err(ApiError::InternalServerError(None))));
}

#[test]
fn claims_carry_subject_text_and_expiry() {
    let c = issue_claims(UserId { id: ID }, 1000).unwrap();
    assert_eq!(c.sub, "550e8400-e29b-41d4-a716-446655440000");
    assert_eq!(c.exp, 1000 + TOKEN_TTL_SECONDS as u64);
    assert!(issue_claims(UserId { id: ID }, -7201).is_none());
    assert!(issue_claims(UserId { id: ID }, i64::MAX - 7199).is_none());
    assert!(issue_claims(UserId { id: ID }, i64::MAX - 7200).is_some());
}

fn unauthorized_message(r: Result<UserId, ApiError>) -> String {
    match r {
        Err(ApiError::Unauthorized(Some(m))) => m,
        other => panic!("unexpected {:?}", other),
    }
}

#[test]
fn bad_tokens_are_refused_uniformly() {
    assert_eq!(unauthorized_message(subject_of(&BearerCheck::Missing, 0)), "Bearer token missing!");
    assert_eq!(unauthorized_message(subject_of(&BearerCheck::Invalid, 0)), "Bearer token not valid!");
    let expired = BearerCheck::Signed(Claims { sub: "550e8400-e29b-41d4-a716-446655440000".to_string(), exp: 100 });
    assert_eq!(unauthorized_message(subject_of(&expired, 100)), "Bearer token not valid!");
    let garbled = BearerCheck::Signed(Claims { sub: "not-a-uuid".to_string(), exp: 100 });
    assert_eq!(unauthorized_message(subject_of(&garbled, 10)), "Not processable token!");
}

#[test]
fn issued_token_admitted_until_expiry_or_deletion() {
    let claims = issue_claims(UserId { id: ID }, 1000).unwrap();
    let exp = claims.exp as i64;
    let late = BearerCheck::Signed(Claims { sub: "550e8400-e29b-41d4-a716-446655440000".to_string(), exp: u64::MAX });
    assert_eq!(task_api::auth::admit_bearer(&late).unwrap(), UserId { id: ID });
    let check = BearerCheck::Signed(claims);
    let subject = subject_of(&check, exp - 1).unwrap();
    assert_eq!(subject, UserId { id: ID });
    assert_eq!(resolve_subject(subject, Ok(Some(UserId { id: ID }))).unwrap(), UserId { id: ID });
    assert_eq!(unauthorized_message(resolve_subject(subject, Ok(None))), "User doesn't exist anymore!");
    assert_eq!(unauthorized_message(subject_of(&check, exp)), "Bearer token not valid!");
    assert!(matches!(resolve_subject(subject, Err(StoreError::Other)), Err(ApiError::InternalDatabaseError(None))));
    let unique_shaped = StoreError::Database {
        code: "23505".to_string(),
        detail: Some("Key (id)=(x) already exists.".to_string()),
    };
    assert!(matches!(resolve_subject(subject, Err(unique_shaped)), Err(ApiError::InternalDatabaseError(None))));
}
