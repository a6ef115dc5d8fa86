use passvault::auth_model::Token;
use passvault::token_codec::{decode, issue, token_round_trip, TOKEN_LIFETIME_SECS};

const LIFETIME: u64 = TOKEN_LIFETIME_SECS;

fn key() -> Vec<u8> {
    b"a process-wide signing secret".to_vec()
}

#[test]
fn issue_then_decode_gives_back_the_claims() {
    let k = key();
    let token = issue(7, 1_000, &k);
    let claims = decode(&token, &k, 1_000).expect("fresh token must decode");
    assert_eq!(claims.sub, 7);
    assert_eq!(claims.exp, (1_000 + LIFETIME) as usize);
}

#[test]
fn round_trip_law_holds_on_concrete_values() {
    let k = key();
    let claims = token_round_trip(42, 5_000, 5_000 + LIFETIME - 1, &k).expect("before expiry");
    assert_eq!(claims.sub, 42);
    assert_eq!(claims.exp, (5_000 + LIFETIME) as usize);
}

#[test]
fn expired_token_does_not_decode() {
    let k = key();
    let token = issue(7, 1_000, &k);
    assert!(decode(&token, &k, 1_000 + LIFETIME).is_none());
    assert!(decode(&token, &k, 1_000 + LIFETIME - 1).is_some());
}

#[test]
fn wrong_key_does_not_decode() {
    let k = key();
    let other = b"another secret entirely".to_vec();
    let token = issue(7, 1_000, &k);
    assert!(decode(&token, &other, 1_000).is_none());
}

#[test]
fn garbage_token_does_not_decode() {
    let k = key();
    assert!(decode(&Token("not a token".to_string()), &k, 0).is_none());
    assert!(decode(&Token("".to_string()), &k, 0).is_none());
    assert!(decode(&Token("a.b.c".to_string()), &k, 0).is_none());
}

#[test]
fn tampered_token_does_not_decode() {
    let k = key();
    let token = issue(7, 1_000, &k);
    let mut text = token.0.clone();
    // Flip the final signature character.
    let last = text.pop().expect("token is never empty");
    text.push(if last == 'A' { 'B' } else { 'A' });
    assert!(decode(&Token(text), &k, 1_000).is_none());
}

#[test]
fn issuance_is_deterministic() {
    let k = key();
    let t1 = issue(7, 1_000, &k);
    let t2 = issue(7, 1_000, &k);
    assert_eq!(t1.0, t2.0);
    let t3 = issue(8, 1_000, &k);
    assert_ne!(t1.0, t3.0);
}
