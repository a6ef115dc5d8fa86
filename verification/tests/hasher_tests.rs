use passvault::hasher;
use passvault::user_model::StoredUser;

fn stored(salt: &str, hash: &str) -> StoredUser {
    StoredUser {
        id: 1,
        username: "alice".to_string(),
        password_hash: hash.to_string(),
        salt: salt.to_string(),
        first_name: "Alice".to_string(),
        last_name: "Doe".to_string(),
        email: "alice@example.com".to_string(),
        created_at: "2024-01-01".to_string(),
    }
}

#[test]
fn salt_is_sixteen_bytes() {
    let salt = hasher::generate_salt();
    assert_eq!(salt.len(), 16);
}

#[test]
fn verify_accepts_hash_of_same_password() {
    let salt = hasher::generate_salt();
    let h = hasher::hash("Secr3t!", &salt);
    assert!(hasher::verify("Secr3t!", &salt, &h));
}

#[test]
fn verify_rejects_wrong_password() {
    let salt = hasher::generate_salt();
    let h = hasher::hash("Secr3t!", &salt);
    assert!(!hasher::verify("wrong", &salt, &h));
}

#[test]
fn distinct_passwords_give_distinct_hashes() {
    let salt = vec![7u8; 16];
    let h1 = hasher::hash("first password", &salt);
    let h2 = hasher::hash("second password", &salt);
    assert_ne!(h1, h2);
}

#[test]
fn hash_is_deterministic_in_password_and_salt() {
    let salt = vec![42u8; 16];
    let h1 = hasher::hash("Secr3t!", &salt);
    let h2 = hasher::hash("Secr3t!", &salt);
    assert_eq!(h1, h2);
}

#[test]
fn hash_is_not_the_password() {
    let salt = vec![0u8; 16];
    let h = hasher::hash("Secr3t!", &salt);
    assert_ne!(h, "Secr3t!");
    assert!(h.starts_with("$2"));
}

#[test]
fn stored_salt_decodes_through_base64() {
    // "AAAAAAAAAAAAAAAAAAAAAA==" is the standard base64 of sixteen zero bytes.
    let zero_salt = vec![0u8; 16];
    let h = hasher::hash("Secr3t!", &zero_salt);
    let user = stored("AAAAAAAAAAAAAAAAAAAAAA==", &h);
    assert_eq!(user.check_password("Secr3t!"), Some(true));
    assert_eq!(user.check_password("wrong"), Some(false));
}

#[test]
fn malformed_salt_is_internal_never_a_mismatch() {
    let user = stored("!!!not base64!!!", "$2b$12$irrelevant");
    assert_eq!(user.check_password("anything"), None);
}

#[test]
fn wrong_length_salt_is_internal() {
    // "AAAAAAAAAAA=" decodes to eight bytes, not sixteen.
    let user = stored("AAAAAAAAAAA=", "$2b$12$irrelevant");
    assert_eq!(user.check_password("anything"), None);
}
