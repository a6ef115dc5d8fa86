use passvault::auth_model::{Credentials, Token, TokenError};
use passvault::auth_service::{current_time, AuthService};
use passvault::errors::APIError;
use passvault::middleware::{authorize, logout_then_authorize, AuthOutcome};
use passvault::session_store::SessionStore;
use passvault::token_codec::TOKEN_LIFETIME_SECS;
use passvault::user_directory::UserDirectory;
use passvault::user_model::UserDto;

fn alice_dto() -> UserDto {
    UserDto {
        username: "alice".to_string(),
        password: "Secr3t!".to_string(),
        first_name: "Alice".to_string(),
        last_name: "Doe".to_string(),
        email: "alice@example.com".to_string(),
    }
}

fn service_with_alice() -> AuthService {
    let mut users = UserDirectory::new();
    users
        .create_user(alice_dto(), "2024-01-01".to_string())
        .expect("fresh directory accepts alice");
    AuthService::new(b"a process-wide signing secret".to_vec(), users, SessionStore::new())
}

fn creds(username: &str, password: &str) -> Credentials {
    Credentials { username: username.to_string(), password: password.to_string() }
}

#[test]
fn login_with_correct_credentials_succeeds() {
    let service = service_with_alice();
    let resp = service.login_at(&creds("alice", "Secr3t!"), 1_000).expect("correct credentials");
    assert_eq!(resp.user.username, "alice");
    assert_eq!(resp.user.id, 1);
    assert!(!resp.token.0.is_empty());
}

#[test]
fn login_with_wrong_password_and_unknown_user_fail_alike() {
    let service = service_with_alice();
    let wrong_password = service.login_at(&creds("alice", "wrong"), 1_000);
    let unknown_user = service.login_at(&creds("ghost", "Secr3t!"), 1_000);
    let m1 = match wrong_password {
        Err(APIError::InvalidCredentials(m)) => m,
        _ => panic!("wrong password must be invalid credentials"),
    };
    let m2 = match unknown_user {
        Err(APIError::InvalidCredentials(m)) => m,
        _ => panic!("unknown username must be invalid credentials"),
    };
    assert_eq!(m1, m2);
}

#[test]
fn authorized_request_resolves_the_user() {
    let service = service_with_alice();
    let resp = service.login_at(&creds("alice", "Secr3t!"), 1_000).expect("login");
    match authorize(&service, Some(&resp.token), 1_000) {
        AuthOutcome::Authorized(user) => {
            assert_eq!(user.id, 1);
            assert_eq!(user.username, "alice");
        }
        AuthOutcome::Rejected(_) => panic!("a fresh token must authorize"),
    }
}

#[test]
fn logout_revokes_the_token() {
    let mut service = service_with_alice();
    let resp = service.login_at(&creds("alice", "Secr3t!"), 1_000).expect("login");
    assert!(service.status(Some(&resp.token), 1_000));
    service.logout(&resp.token).expect("logout always succeeds");
    assert!(!service.status(Some(&resp.token), 1_000));
    match authorize(&service, Some(&resp.token), 1_000) {
        AuthOutcome::Rejected(TokenError::Invalid) => {}
        _ => panic!("a revoked token must be rejected as invalid"),
    }
}

#[test]
fn logout_then_authorize_law_on_concrete_values() {
    let mut service = service_with_alice();
    let resp = service.login_at(&creds("alice", "Secr3t!"), 1_000).expect("login");
    match logout_then_authorize(&mut service, &resp.token, 1_000) {
        AuthOutcome::Rejected(TokenError::Invalid) => {}
        _ => panic!("a token revoked by logout must be rejected"),
    }
}

#[test]
fn revoking_an_invalid_token_still_succeeds() {
    let mut service = service_with_alice();
    service
        .logout(&Token("never issued".to_string()))
        .expect("revoking an unknown token is a no-op success");
    service
        .logout(&Token("never issued".to_string()))
        .expect("revoking it again still succeeds");
}

#[test]
fn expired_token_is_rejected_even_if_never_revoked() {
    let service = service_with_alice();
    let resp = service.login_at(&creds("alice", "Secr3t!"), 1_000).expect("login");
    let expiry = 1_000 + TOKEN_LIFETIME_SECS;
    match authorize(&service, Some(&resp.token), expiry - 1) {
        AuthOutcome::Authorized(_) => {}
        AuthOutcome::Rejected(_) => panic!("still valid just before expiry"),
    }
    match authorize(&service, Some(&resp.token), expiry) {
        AuthOutcome::Rejected(TokenError::Invalid) => {}
        _ => panic!("expired token must be rejected"),
    }
}

#[test]
fn missing_and_malformed_carriers_are_rejected() {
    let service = service_with_alice();
    match authorize(&service, None, 1_000) {
        AuthOutcome::Rejected(TokenError::Missing) => {}
        _ => panic!("no carrier must be rejected as missing"),
    }
    match authorize(&service, Some(&Token("syntactically malformed".to_string())), 1_000) {
        AuthOutcome::Rejected(TokenError::Invalid) => {}
        _ => panic!("malformed token must be rejected as invalid"),
    }
}

#[test]
fn token_of_a_deleted_user_is_rejected() {
    let mut service = service_with_alice();
    let resp = service.login_at(&creds("alice", "Secr3t!"), 1_000).expect("login");
    service.users.delete_user(1).expect("delete succeeds");
    match authorize(&service, Some(&resp.token), 1_000) {
        AuthOutcome::Rejected(TokenError::Invalid) => {}
        _ => panic!("a token for a deleted account must be rejected"),
    }
}

#[test]
fn login_too_late_for_an_expiry_is_internal() {
    let service = service_with_alice();
    match service.login_at(&creds("alice", "Secr3t!"), u64::MAX) {
        Err(APIError::InternalError(_)) => {}
        _ => panic!("an expiry that cannot be represented is an internal error"),
    }
}

#[test]
fn login_with_the_real_clock() {
    let service = service_with_alice();
    let resp = service.login(&creds("alice", "Secr3t!")).expect("login at the wall clock");
    assert!(service.status(Some(&resp.token), current_time()));
}
