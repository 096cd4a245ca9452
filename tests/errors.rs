use task_api::error::{finish, format_detail_from_unique, from_store_error, unique_detail_fields, ApiError, StoreError};

fn unique_error(detail: &str) -> StoreError {
    StoreError::Database { code: "23505".to_string(), detail: Some(detail.to_string()) }
}

#[test]
fn detail_of_duplicate_email_is_formatted() {
    let m = format_detail_from_unique("Key (email)=(someone@example.com) already exists.".to_string());
    assert_eq!(m, "The email someone@example.com already exists.");
}

#[test]
fn detail_fields_need_two_groups() {
    assert!(unique_detail_fields("Key email already exists.").is_none());
    assert!(unique_detail_fields("Key (email) already exists.").is_none());
    let (f, v) = unique_detail_fields("Key (name)=(bob) already exists.").unwrap();
    assert_eq!(f, "name");
    assert_eq!(v, "bob");
}

#[test]
fn second_registration_with_same_email_conflicts() {
    let e = from_store_error(&unique_error("Key (email)=(taken@example.com) already exists."));
    match e {
        ApiError::Conflict(Some(m)) => assert_eq!(m, "The email taken@example.com already exists."),
        other => panic!("unexpected {:?}", other),
    }
    assert_eq!(from_store_error(&unique_error("Key (email)=(x@y.io) already exists.")).status_code(), 409);
}

#[test]
fn other_store_errors_stay_hidden() {
    let fk = StoreError::Database { code: "23503".to_string(), detail: Some("Key (user_id)=(1) is not present.".to_string()) };
    assert!(matches!(from_store_error(&fk), ApiError::InternalDatabaseError(None)));
    let no_detail = StoreError::Database { code: "23505".to_string(), detail: None };
    assert!(matches!(from_store_error(&no_detail), ApiError::InternalDatabaseError(None)));
    let unreadable = unique_error("duplicate key");
    assert!(matches!(from_store_error(&unreadable), ApiError::InternalDatabaseError(None)));
    assert!(matches!(from_store_error(&StoreError::Other), ApiError::InternalDatabaseError(None)));
}

#[test]
fn finish_passes_rows_and_translates_failures() {
    let ok: Result<u32, StoreError> = Ok(7);
    assert_eq!(finish(ok).unwrap(), 7);
    let err: Result<u32, StoreError> = Err(StoreError::Other);
    assert!(matches!(finish(err), Err(ApiError::InternalDatabaseError(None))));
}

#[test]
fn status_codes_and_messages() {
    assert_eq!(ApiError::InternalDatabaseError(None).status_code(), 500);
    assert_eq!(ApiError::InternalServerError(None).status_code(), 500);
    assert_eq!(ApiError::Unauthorized(None).status_code(), 401);
    assert_eq!(ApiError::Forbidden(None).status_code(), 403);
    assert_eq!(ApiError::BadRequest(None).status_code(), 400);
    assert_eq!(ApiError::UnprocessableEntity(None).status_code(), 422);
    assert_eq!(ApiError::Conflict(None).status_code(), 409);
    assert_eq!(ApiError::InternalDatabaseError(None).message(), "Internal database error!");
    assert_eq!(ApiError::Unauthorized(None).message(), "Unauthorized request!");
    assert_eq!(ApiError::Forbidden(Some("no".to_string())).message(), "no");
    assert_eq!(ApiError::UnprocessableEntity(None).title(), "Unprocessable entity!");
}
