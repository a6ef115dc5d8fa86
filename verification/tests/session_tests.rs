use passvault::auth_model::Token;
use passvault::session_store::SessionStore;

#[test]
fn fresh_store_has_nothing_revoked() {
    let store = SessionStore::new();
    assert!(!store.is_revoked(&Token("anything".to_string())));
}

#[test]
fn revoked_token_is_revoked() {
    let mut store = SessionStore::new();
    let token = Token("tok-1".to_string());
    store.revoke(&token);
    assert!(store.is_revoked(&token));
    assert!(!store.is_revoked(&Token("tok-2".to_string())));
}

#[test]
fn revoking_twice_is_the_same_as_once() {
    let mut store_once = SessionStore::new();
    let mut store_twice = SessionStore::new();
    let token = Token("tok-1".to_string());
    store_once.revoke(&token);
    store_twice.revoke(&token);
    store_twice.revoke(&token);
    assert!(store_once.is_revoked(&token));
    assert!(store_twice.is_revoked(&token));
    assert_eq!(
        store_once.is_revoked(&Token("other".to_string())),
        store_twice.is_revoked(&Token("other".to_string()))
    );
}
