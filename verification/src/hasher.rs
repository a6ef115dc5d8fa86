//! Salted, computationally expensive one-way password hashing, built on
//! bcrypt with a fixed cost. Salts are 16 random bytes; stored user records
//! carry them base64-encoded, so the standard base64 codec is wrapped here
//! as well.
use vstd::prelude::*;

verus! {

/// The bcrypt hash string that `bcrypt::hash_with_salt` produces for a
/// password and a 16-byte salt at the crate's default cost: a function of
/// those two arguments alone.
pub uninterp spec fn bcrypt_hash_of(password: Seq<char>, salt: Seq<u8>) -> Seq<char>;

/// What base64's standard engine decodes a piece of text to: `None` where the
/// text is not valid base64.
pub uninterp spec fn b64_decode_of(text: Seq<char>) -> Option<Seq<u8>>;

/// Relies on `base64::engine::general_purpose::STANDARD`'s `encode`: decoding
/// the encoded text gives back exactly the input bytes.
#[verifier::external_body]
pub(crate) fn b64_encode(bytes: &Vec<u8>) -> (r: String)
    ensures
        b64_decode_of(r@) == Some(bytes@),
{
    base64::Engine::encode(&base64::engine::general_purpose::STANDARD, bytes)
}

/// Relies on `base64::engine::general_purpose::STANDARD`'s `decode`: the
/// result is a function of the text alone.
#[verifier::external_body]
pub(crate) fn b64_decode(text: &str) -> (r: Option<Vec<u8>>)
    ensures
        (match r {
            Some(v) => b64_decode_of(text@) == Some(v@),
            None => b64_decode_of(text@) is None,
        }),
{
    base64::Engine::decode(&base64::engine::general_purpose::STANDARD, text).ok()
}

/// Relies on `bcrypt::hash_with_salt`: deterministic in the password and the
/// 16-byte salt at the fixed default cost, and infallible for that cost.
#[verifier::external_body]
fn bcrypt_hash(password: &str, salt: &Vec<u8>) -> (r: String)
    requires
        salt@.len() == 16,
    ensures
        r@ == bcrypt_hash_of(password@, salt@),
{
    let mut arr = [0u8; 16];
    arr.copy_from_slice(salt.as_slice());
    bcrypt::hash_with_salt(password, bcrypt::DEFAULT_COST, arr)
        .expect("the default cost is within bcrypt's allowed range")
        .to_string()
}

/// Relies on `rand::random` for 16 bytes of thread-local randomness; nothing
/// is promised of the values beyond the length.
#[verifier::external_body]
fn random_salt_bytes() -> (r: Vec<u8>)
    ensures
        r@.len() == 16,
{
    rand::random::<[u8; 16]>().to_vec()
}

/// The hash that `hash` returns.
pub open spec fn spec_hash(password: Seq<char>, salt: Seq<u8>) -> Seq<char> {
    bcrypt_hash_of(password, salt)
}

/// Whether a stored hash is the one this hasher produces for the given
/// password and salt; `verify` returns exactly this.
pub open spec fn spec_verify(password: Seq<char>, salt: Seq<u8>, expected: Seq<char>) -> bool {
    expected == bcrypt_hash_of(password, salt)
}

/// A fresh random 16-byte salt.
pub fn generate_salt() -> (r: Vec<u8>)
    ensures
        r@.len() == 16,
{
    random_salt_bytes()
}

/// Hash a password with the given 16-byte salt at the fixed cost.
pub fn hash(password: &str, salt: &Vec<u8>) -> (r: String)
    requires
        salt@.len() == 16,
    ensures
        r@ == spec_hash(password@, salt@),
{
    bcrypt_hash(password, salt)
}

/// Recompute the hash of a candidate password with the stored salt and
/// compare it to the stored hash.
pub fn verify(password: &str, salt: &Vec<u8>, expected: &String) -> (r: bool)
    requires
        salt@.len() == 16,
    ensures
        r == spec_verify(password@, salt@, expected@),
{
    let recomputed = bcrypt_hash(password, salt);
    recomputed == *expected
}

/// Law: verifying a password against the hash produced from that same
/// password and salt always succeeds.
pub proof fn lemma_verify_after_hash(password: Seq<char>, salt: Seq<u8>)
    ensures
        spec_verify(password, salt, spec_hash(password, salt)),
{
}

} // verus!
