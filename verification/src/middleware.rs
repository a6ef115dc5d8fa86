//! The per-request gate: extract the token from its carrier, validate
//! signature and expiry, consult the blacklist, resolve the subject to a
//! stored account, and hand the sanitized user to the handler — or reject.
//! Every token-validation failure looks the same to the caller; only a
//! missing carrier is reported apart.
use vstd::prelude::*;

use crate::auth_model::{Token, TokenError};
use crate::auth_service::AuthService;
use crate::token_codec;
use crate::token_codec::spec_decode;
use crate::user_directory::{spec_has_id, spec_user_with_id};
use crate::user_model::{StoredUser, User};

verus! {

/// How a gated request ends: with the resolved user attached, or rejected.
#[derive(Debug)]
pub enum AuthOutcome {
    Authorized(User),
    Rejected(TokenError),
}

/// Whether the service accepts this token at time `now`: its signature
/// checks out under the secret, its expiry lies in the future, it is not on
/// the blacklist, and its subject names a stored account.
pub open spec fn spec_token_accepted(
    users: Seq<StoredUser>,
    blacklist: Set<Seq<char>>,
    secret: Seq<u8>,
    token: Seq<char>,
    now: int,
) -> bool {
    match spec_decode(token, secret, now) {
        Some(c) => !blacklist.contains(token) && spec_has_id(users, c.sub as int),
        None => false,
    }
}

/// The account a token the service accepts resolves to.
pub open spec fn spec_resolved_user(
    users: Seq<StoredUser>,
    secret: Seq<u8>,
    token: Seq<char>,
    now: int,
) -> StoredUser {
    spec_user_with_id(users, spec_decode(token, secret, now).unwrap().sub as int)
}

/// Gate one request at time `now`: a missing carrier is rejected as
/// `Missing`; a token that fails any validation step is rejected as
/// `Invalid`; an accepted token resolves to its sanitized account record.
pub fn authorize(service: &AuthService, carrier: Option<&Token>, now: u64) -> (r: AuthOutcome)
    requires
        service.users.wf(),
    ensures
        (match carrier {
            None => r matches AuthOutcome::Rejected(TokenError::Missing),
            Some(t) => {
                let accepted = spec_token_accepted(
                    service.users@,
                    service.store@,
                    service.secret@,
                    t@,
                    now as int,
                );
                &&& (r matches AuthOutcome::Authorized(u) ==> accepted && u == spec_resolved_user(
                    service.users@,
                    service.secret@,
                    t@,
                    now as int,
                ).spec_sanitized())
                &&& (r matches AuthOutcome::Rejected(e) ==> !accepted && e == TokenError::Invalid)
            },
        }),
{
    let token = match carrier {
        Some(t) => t,
        None => return AuthOutcome::Rejected(TokenError::Missing),
    };
    let claims = match token_codec::decode(token, &service.secret, now) {
        Some(c) => c,
        None => return AuthOutcome::Rejected(TokenError::Invalid),
    };
    if service.store.is_revoked(token) {
        return AuthOutcome::Rejected(TokenError::Invalid);
    }
    match service.users.find_by_id(claims.sub) {
        Some(stored) => AuthOutcome::Authorized(stored.sanitized()),
        None => AuthOutcome::Rejected(TokenError::Invalid),
    }
}

/// Law: a token presented after being revoked is rejected, whatever its
/// signature, expiry or subject — logging out makes the token unusable.
pub fn logout_then_authorize(service: &mut AuthService, token: &Token, now: u64) -> (r: AuthOutcome)
    requires
        old(service).users.wf(),
    ensures
        r matches AuthOutcome::Rejected(TokenError::Invalid),
{
    let _ = service.logout(token);
    authorize(service, Some(token), now)
}

/// Law: a token on the blacklist is rejected, even while its signature
/// still checks out and its expiry still lies in the future.
pub proof fn lemma_revoked_token_rejected(
    users: Seq<StoredUser>,
    blacklist: Set<Seq<char>>,
    secret: Seq<u8>,
    token: Seq<char>,
    now: int,
)
    requires
        blacklist.contains(token),
    ensures
        !spec_token_accepted(users, blacklist, secret, token, now),
{
}

/// Law: a token whose expiry has passed is rejected, even if it was never
/// revoked.
pub proof fn lemma_expired_token_rejected(
    users: Seq<StoredUser>,
    blacklist: Set<Seq<char>>,
    secret: Seq<u8>,
    token: Seq<char>,
    now: int,
)
    requires
        (match token_codec::jwt_claims_of(token, secret) {
            Some(c) => c.1 <= now,
            None => true,
        }),
    ensures
        !spec_token_accepted(users, blacklist, secret, token, now),
{
}

} // verus!
