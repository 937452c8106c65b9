use otc_sol::auth::{
    login, login_token, password_check_outcome, register, register_outcome, registration_row, LoginStep, RegisterData,
};
use otc_sol::error::ApiError;
use otc_sol::models::User;

fn stored_user(id: i32, username: &str, password_hash: &str) -> User {
    User {
        id,
        username: username.to_string(),
        email: "test@example.com".to_string(),
        password_hash: password_hash.to_string(),
        created_at: 0,
    }
}

// A bcrypt hash of "password" at cost 4, produced by an independent implementation.
const PASSWORD_HASH: &str = "$2a$04$UuTkLRZZ6QofpDOlMz32MuuxEHA43WOemOYHPz6.SjsVsyO1tDU96";

#[test]
fn test_register() {
    let data = RegisterData {
        username: "testuser".to_string(),
        email: "test@example.com".to_string(),
        password: "password123".to_string(),
    };
    let user = register(&data).expect("hashing succeeds");
    assert_eq!(user.username, "testuser");
    assert_eq!(user.email, "test@example.com");
    assert_eq!(user.password_hash.len(), 60);
    assert!(user.password_hash.starts_with("$2b$12$"));
    assert_ne!(user.password_hash, "password123");
    assert_eq!(register_outcome(true), Ok(()));
}

#[test]
fn test_login() {
    let data = RegisterData {
        username: "testuser".to_string(),
        email: "test@example.com".to_string(),
        password: "password123".to_string(),
    };
    let new_user = register(&data).expect("hashing succeeds");
    let stored = stored_user(42, &new_user.username, &new_user.password_hash);
    match login(Ok(Some(stored)), "password123") {
        LoginStep::IssueToken(subject) => assert_eq!(subject, "42"),
        other => panic!("expected a token, got {:?}", other),
    }
    assert_eq!(login_token(Ok("tok".to_string())), Ok("tok".to_string()));
}

#[test]
fn registration_failure_to_insert_is_a_database_insertion_error() {
    let r = register_outcome(false);
    assert_eq!(r, Err(ApiError::DatabaseInsertion));
    let e = r.unwrap_err();
    assert_eq!(e.status_code(), 500);
    assert_eq!(e.message(), "Database insertion error");
}

#[test]
fn login_with_known_hash_issues_token_for_user_id() {
    let stored = stored_user(7, "alice", PASSWORD_HASH);
    match login(Ok(Some(stored)), "password") {
        LoginStep::IssueToken(subject) => assert_eq!(subject, "7"),
        other => panic!("expected a token, got {:?}", other),
    }
}

#[test]
fn login_subject_is_decimal_of_negative_and_large_ids() {
    for (id, text) in [(-15, "-15"), (i32::MAX, "2147483647"), (i32::MIN, "-2147483648"), (0, "0")] {
        let stored = stored_user(id, "alice", PASSWORD_HASH);
        match login(Ok(Some(stored)), "password") {
            LoginStep::IssueToken(subject) => assert_eq!(subject, text),
            other => panic!("expected a token, got {:?}", other),
        }
    }
}

#[test]
fn login_with_wrong_password_is_unauthorized() {
    let stored = stored_user(7, "alice", PASSWORD_HASH);
    match login(Ok(Some(stored)), "Password") {
        LoginStep::Reject(e) => {
            assert_eq!(e, ApiError::Unauthorized);
            assert_eq!(e.status_code(), 401);
            assert_eq!(e.message(), "");
        }
        other => panic!("expected a rejection, got {:?}", other),
    }
}

#[test]
fn login_of_unknown_user_is_unauthorized() {
    match login(Ok(None), "password") {
        LoginStep::Reject(e) => assert_eq!(e, ApiError::Unauthorized),
        other => panic!("expected a rejection, got {:?}", other),
    }
}

#[test]
fn login_when_lookup_fails_is_database_error() {
    match login(Err(()), "password") {
        LoginStep::Reject(e) => {
            assert_eq!(e, ApiError::Database);
            assert_eq!(e.status_code(), 500);
            assert_eq!(e.message(), "Database Error");
        }
        other => panic!("expected a rejection, got {:?}", other),
    }
}

#[test]
fn login_against_malformed_stored_hash_is_database_error() {
    let stored = stored_user(7, "alice", "not-a-bcrypt-hash");
    match login(Ok(Some(stored)), "password") {
        LoginStep::Reject(e) => assert_eq!(e, ApiError::Database),
        other => panic!("expected a rejection, got {:?}", other),
    }
}

#[test]
fn failed_token_issuance_is_database_error() {
    assert_eq!(login_token(Err(())), Err(ApiError::Database));
}

#[test]
fn password_hashing_error_reply() {
    let e = ApiError::PasswordHashing;
    assert_eq!(e.status_code(), 500);
    assert_eq!(e.message(), "Password hashing error");
}

#[test]
fn registration_row_carries_request_and_hash() {
    let data = RegisterData {
        username: "bob".to_string(),
        email: "bob@example.com".to_string(),
        password: "secret".to_string(),
    };
    let row = registration_row(&data, Some("HASH".to_string())).expect("row");
    assert_eq!(row.username, "bob");
    assert_eq!(row.email, "bob@example.com");
    assert_eq!(row.password_hash, "HASH");
    assert_eq!(registration_row(&data, None).unwrap_err(), ApiError::PasswordHashing);
}

#[test]
fn password_check_outcomes() {
    match password_check_outcome(314, Ok(true)) {
        LoginStep::IssueToken(s) => assert_eq!(s, "314"),
        other => panic!("expected a token, got {:?}", other),
    }
    assert!(matches!(password_check_outcome(314, Ok(false)), LoginStep::Reject(ApiError::Unauthorized)));
    assert!(matches!(password_check_outcome(314, Err(())), LoginStep::Reject(ApiError::Database)));
}
