//! Credential, session and guard behavior, end to end on concrete values.

use heyi_admin::auth::{authorize, extract_bearer, login};
use heyi_admin::credentials::CredentialStore;
use heyi_admin::crypto::hash_password;
use heyi_admin::errors::{AuthError, LoginError};
use heyi_admin::ident::new_uuid_string;
use heyi_admin::sessions::{Session, SessionStore};

#[test]
fn hash_password_is_sha256_hex() {
    // SHA-256("admin"), hex-encoded in lowercase.
    assert_eq!(
        hash_password("admin"),
        "8c6976e5b5410415bde908bd4dee15dfb167a9c873fc4bb8a81f6f2ab448a918"
    );
    // SHA-256 of the empty string.
    assert_eq!(
        hash_password(""),
        "e3b0c44298fc1c149afbf4c8996fb92427ae41e4649b934ca495991b7852b855"
    );
}

#[test]
fn uuid_strings_are_hyphenated() {
    let id = new_uuid_string();
    assert_eq!(id.len(), 36);
    let another = new_uuid_string();
    assert_ne!(id, another);
}

#[test]
fn bootstrap_then_verify() {
    let mut creds = CredentialStore::new();
    creds.ensure_bootstrap_administrator("admin", "admin", 1_000);
    assert_eq!(creds.rows.len(), 1);

    assert!(creds.verify("admin", "admin").is_ok());
    assert_eq!(
        creds.verify("admin", "wrong"),
        Err(AuthError::InvalidCredentials)
    );
    assert_eq!(
        creds.verify("nobody", "admin"),
        Err(AuthError::InvalidCredentials)
    );
}

#[test]
fn bootstrap_never_creates_a_second_administrator() {
    let mut creds = CredentialStore::new();
    creds.ensure_bootstrap_administrator("admin", "admin", 1_000);
    let first_id = creds.rows[0].id.clone();
    creds.ensure_bootstrap_administrator("other", "secret", 2_000);
    assert_eq!(creds.rows.len(), 1);
    assert_eq!(creds.rows[0].id, first_id);
    // The original administrator still wins; the second pair never took.
    assert!(creds.verify("admin", "admin").is_ok());
    assert_eq!(
        creds.verify("other", "secret"),
        Err(AuthError::InvalidCredentials)
    );
}

#[test]
fn issue_then_resolve_round_trip() {
    let mut sessions = SessionStore::new();
    let issued = sessions.issue("user-1", 42).expect("issue");
    assert_eq!(issued.token.len(), 32);
    assert!(issued.token.chars().all(|c| c.is_ascii_alphanumeric()));
    assert_eq!(issued.user_id, "user-1");
    assert_eq!(issued.created_at, 42);

    let resolved = sessions.resolve(&issued.token).expect("resolve");
    assert_eq!(resolved.id, issued.id);
    assert_eq!(resolved.user_id, "user-1");
    assert_eq!(resolved.token, issued.token);
}

#[test]
fn resolve_fails_for_any_other_string() {
    let mut sessions = SessionStore::new();
    let issued = sessions.issue("user-1", 42).expect("issue");
    assert_eq!(sessions.resolve("bogus"), Err(AuthError::InvalidToken));
    let mut close = issued.token.clone();
    close.pop();
    assert_eq!(sessions.resolve(&close), Err(AuthError::InvalidToken));
    assert_eq!(sessions.resolve(""), Err(AuthError::InvalidToken));
}

#[test]
fn duplicate_tokens_are_rejected_not_overwritten() {
    let mut sessions = SessionStore::new();
    let first = Session {
        id: "s1".to_string(),
        user_id: "u1".to_string(),
        token: "sametoken".to_string(),
        created_at: 1,
    };
    let second = Session {
        id: "s2".to_string(),
        user_id: "u2".to_string(),
        token: "sametoken".to_string(),
        created_at: 2,
    };
    assert!(sessions.insert(first).is_ok());
    assert!(sessions.insert(second).is_err());
    assert_eq!(sessions.rows.len(), 1);
    assert_eq!(sessions.resolve("sametoken").unwrap().user_id, "u1");
}

#[test]
fn extract_bearer_strips_the_prefix() {
    assert_eq!(extract_bearer("Bearer abc123").as_deref(), Some("abc123"));
    assert_eq!(extract_bearer("Bearer ").as_deref(), Some(""));
    assert_eq!(extract_bearer("Token abc123"), None);
    assert_eq!(extract_bearer("bearer abc123"), None);
    assert_eq!(extract_bearer(""), None);
    assert_eq!(extract_bearer("Bearer"), None);
}

#[test]
fn login_scenario_against_fresh_bootstrap() {
    let mut creds = CredentialStore::new();
    creds.ensure_bootstrap_administrator("admin", "admin", 0);
    let mut sessions = SessionStore::new();

    let session = login(&creds, &mut sessions, "admin", "admin", 7).expect("login");
    assert!(session.token.len() >= 32);

    // The issued token passes the guard.
    let header = format!("Bearer {}", session.token);
    assert!(authorize(Some(&header), &sessions).is_ok());

    // A bogus token is rejected with the invalid_token reason.
    let denied = authorize(Some("Bearer bogus"), &sessions).unwrap_err();
    assert_eq!(denied, AuthError::InvalidToken);
    assert_eq!(denied.reason(), "invalid_token");
    assert_eq!(denied.status_code(), 401);
}

#[test]
fn login_rejects_bad_credentials() {
    let mut creds = CredentialStore::new();
    creds.ensure_bootstrap_administrator("admin", "admin", 0);
    let mut sessions = SessionStore::new();

    assert_eq!(
        login(&creds, &mut sessions, "admin", "nope", 7),
        Err(LoginError::Credentials)
    );
    assert_eq!(sessions.rows.len(), 0);
    assert_eq!(LoginError::Credentials.reason(), "invalid_credentials");
    assert_eq!(LoginError::Credentials.status_code(), 401);
    // The store-level collision, were the random draw ever to repeat, is a
    // server-side failure, not an authentication one.
    assert_eq!(LoginError::TokenCollision.reason(), "db_error");
    assert_eq!(LoginError::TokenCollision.status_code(), 500);
}

#[test]
fn missing_header_is_missing_token() {
    let sessions = SessionStore::new();
    let denied = authorize(None, &sessions).unwrap_err();
    assert_eq!(denied, AuthError::MissingToken);
    assert_eq!(denied.reason(), "missing_token");
    // A header without the Bearer shape counts as missing too.
    let denied = authorize(Some("Basic xyz"), &sessions).unwrap_err();
    assert_eq!(denied, AuthError::MissingToken);
}
