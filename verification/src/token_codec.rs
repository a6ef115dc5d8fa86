//! Issuance and validation of signed session tokens. A token carries
//! {sub: user id, exp: seconds since the epoch} signed with HS256 under a
//! process-wide secret; its lifetime is fixed at seven days from issuance.
//! Decoding fails closed: a bad signature, malformed claims, or an expiry
//! not strictly in the future all yield nothing.
use vstd::prelude::*;

use crate::auth_model::{Token, TokenClaims};

verus! {

/// Seconds in the fixed seven-day token lifetime.
pub const TOKEN_LIFETIME_SECS: u64 = 604800;

/// The compact signed token that `jsonwebtoken::encode` produces for the
/// claims {sub, exp} under an HS256 secret: a function of those arguments
/// alone.
pub uninterp spec fn jwt_of(sub: int, exp: int, key: Seq<u8>) -> Seq<char>;

/// The claims that `jsonwebtoken::decode` (signature check only, time
/// validation off) extracts from a token under a secret, as the pair
/// (sub, exp): `None` where the token is malformed, carries no usable
/// integer claims, or its signature does not match the secret.
pub uninterp spec fn jwt_claims_of(token: Seq<char>, key: Seq<u8>) -> Option<(int, int)>;

/// Relies on `jsonwebtoken::encode` with HS256: deterministic in the claims
/// and secret, infallible for an HMAC secret, and its output decodes under
/// the same secret back to exactly these claims.
#[verifier::external_body]
fn jwt_encode(sub: i32, exp: u64, key: &Vec<u8>) -> (r: String)
    ensures
        r@ == jwt_of(sub as int, exp as int, key@),
        jwt_claims_of(r@, key@) == Some((sub as int, exp as int)),
{
    let mut claims = serde_json::Map::new();
    claims.insert("sub".to_owned(), serde_json::Value::from(sub));
    claims.insert("exp".to_owned(), serde_json::Value::from(exp));
    let header = jsonwebtoken::Header::new(jsonwebtoken::Algorithm::HS256);
    let encoding_key = jsonwebtoken::EncodingKey::from_secret(key.as_slice());
    jsonwebtoken::encode(&header, &serde_json::Value::Object(claims), &encoding_key)
        .expect("HS256 signing of plain integer claims cannot fail")
}

/// Relies on `jsonwebtoken::decode` with HS256 and every time-dependent
/// check turned off: the result is a function of the token and secret alone.
#[verifier::external_body]
fn jwt_decode(token: &str, key: &Vec<u8>) -> (r: Option<(i64, u64)>)
    ensures
        (match r {
            Some(c) => jwt_claims_of(token@, key@) == Some((c.0 as int, c.1 as int)),
            None => jwt_claims_of(token@, key@) is None,
        }),
{
    let mut validation = jsonwebtoken::Validation::new(jsonwebtoken::Algorithm::HS256);
    validation.validate_exp = false;
    validation.required_spec_claims = std::collections::HashSet::new();
    let decoding_key = jsonwebtoken::DecodingKey::from_secret(key.as_slice());
    let data = match jsonwebtoken::decode::<serde_json::Value>(token, &decoding_key, &validation) {
        Ok(data) => data,
        Err(_) => return None,
    };
    let sub = data.claims.get("sub").and_then(serde_json::Value::as_i64);
    let exp = data.claims.get("exp").and_then(serde_json::Value::as_u64);
    match (sub, exp) {
        (Some(s), Some(e)) => Some((s, e)),
        _ => None,
    }
}

/// The claims `decode` accepts for a token at time `now`: the signature must
/// check out under the secret, the subject and expiry must be representable,
/// and the expiry must lie strictly in the future.
pub open spec fn spec_decode(token: Seq<char>, key: Seq<u8>, now: int) -> Option<TokenClaims> {
    match jwt_claims_of(token, key) {
        Some(c) => if i32::MIN <= c.0 <= i32::MAX && 0 <= c.1 <= usize::MAX && c.1 > now {
            Some(TokenClaims { sub: c.0 as i32, exp: c.1 as usize })
        } else {
            None
        },
        None => None,
    }
}

/// Issue a signed token for a user id at time `now`, expiring a fixed seven
/// days later.
pub fn issue(user_id: i32, now: u64, key: &Vec<u8>) -> (r: Token)
    requires
        now + TOKEN_LIFETIME_SECS <= u64::MAX,
    ensures
        r@ == jwt_of(user_id as int, now + TOKEN_LIFETIME_SECS, key@),
        jwt_claims_of(r@, key@) == Some((user_id as int, now + TOKEN_LIFETIME_SECS)),
{
    Token(jwt_encode(user_id, now + TOKEN_LIFETIME_SECS, key))
}

/// Decode and validate a presented token at time `now`; fails closed on any
/// signature mismatch, malformed payload, or expiry not in the future.
pub fn decode(token: &Token, key: &Vec<u8>, now: u64) -> (r: Option<TokenClaims>)
    ensures
        r == spec_decode(token@, key@, now as int),
{
    match jwt_decode(token.0.as_str(), key) {
        Some((sub, exp)) => {
            if i32::MIN as i64 <= sub && sub <= i32::MAX as i64 && exp <= usize::MAX as u64 && exp
                > now {
                Some(TokenClaims { sub: sub as i32, exp: exp as usize })
            } else {
                None
            }
        },
        None => None,
    }
}

/// Law: a token issued for a user at `now` decodes, at any time strictly
/// before its expiry, to exactly that user id and that expiry.
pub fn token_round_trip(user_id: i32, now: u64, at: u64, key: &Vec<u8>) -> (r: Option<TokenClaims>)
    requires
        now + TOKEN_LIFETIME_SECS <= usize::MAX,
        at < now + TOKEN_LIFETIME_SECS,
    ensures
        r == Some(TokenClaims { sub: user_id, exp: (now + TOKEN_LIFETIME_SECS) as usize }),
{
    let token = issue(user_id, now, key);
    decode(&token, key, at)
}

} // verus!
