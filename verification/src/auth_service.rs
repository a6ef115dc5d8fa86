//! Login and logout, composed from the hasher, the token codec, the
//! blacklist and the user directory. Login verifies the submitted
//! credentials against the stored record and issues a signed token; logout
//! records the presented token on the blacklist. Neither failure path tells
//! a caller whether the username or the password was wrong.
use vstd::prelude::*;

use crate::auth_model::{Credentials, LoginResponse, Token};
use crate::errors::APIError;
use crate::session_store::SessionStore;
use crate::token_codec;
use crate::token_codec::{jwt_claims_of, jwt_of, spec_decode, TOKEN_LIFETIME_SECS};
use crate::user_directory::{spec_has_username, spec_user_with_username, UserDirectory};
use crate::user_model::StoredUser;

verus! {

/// Whether the submitted credentials name a stored account whose password
/// they carry: the precise condition under which login succeeds.
pub open spec fn spec_credentials_good(users: Seq<StoredUser>, username: Seq<char>, password: Seq<char>) -> bool {
    &&& spec_has_username(users, username)
    &&& spec_user_with_username(users, username).spec_password_matches(password)
}

/// Whether the submitted credentials are rejected as invalid: no such
/// username, or a well-formed stored salt under which the password does not
/// hash to the stored hash.
pub open spec fn spec_credentials_invalid(users: Seq<StoredUser>, username: Seq<char>, password: Seq<char>) -> bool {
    ||| !spec_has_username(users, username)
    ||| {
        let u = spec_user_with_username(users, username);
        &&& spec_has_username(users, username)
        &&& u.salt_wf()
        &&& !u.spec_password_matches(password)
    }
}

/// Relies on `chrono::Utc::now` for the current wall-clock time; nothing is
/// promised of the value.
#[verifier::external_body]
fn now_timestamp() -> i64 {
    chrono::Utc::now().timestamp()
}

/// The current time as non-negative seconds since the epoch.
pub fn current_time() -> u64 {
    let t = now_timestamp();
    if t < 0 {
        0
    } else {
        t as u64
    }
}

/// The authentication service: the process-wide signing secret, the user
/// directory it looks accounts up in, and the blacklist it records revoked
/// tokens in.
pub struct AuthService {
    pub secret: Vec<u8>,
    pub users: UserDirectory,
    pub store: SessionStore,
}

impl AuthService {
    /// A service over the given signing secret, user directory and
    /// blacklist.
    pub fn new(secret: Vec<u8>, users: UserDirectory, store: SessionStore) -> (r: AuthService)
        ensures
            r.secret == secret,
            r.users == users,
            r.store == store,
    {
        AuthService { secret, users, store }
    }

    /// Verify the submitted credentials at time `now` and issue a token
    /// expiring a fixed seven days later. Unknown usernames and wrong
    /// passwords are rejected with one and the same generic message; a
    /// malformed stored salt is an internal error, never a mismatch.
    pub fn login_at(&self, credentials: &Credentials, now: u64) -> (r: Result<
        LoginResponse,
        APIError,
    >)
        requires
            self.users.wf(),
        ensures
            r is Ok <==> (spec_credentials_good(
                self.users@,
                credentials.username@,
                credentials.password@,
            ) && now + TOKEN_LIFETIME_SECS <= u64::MAX),
            (match r {
                Ok(resp) => {
                    let u = spec_user_with_username(self.users@, credentials.username@);
                    &&& resp.user == u.spec_sanitized()
                    &&& resp.token@ == jwt_of(
                        u.id as int,
                        now + TOKEN_LIFETIME_SECS,
                        self.secret@,
                    )
                    &&& jwt_claims_of(resp.token@, self.secret@) == Some(
                        (u.id as int, (now + TOKEN_LIFETIME_SECS) as int),
                    )
                },
                Err(e) => match e {
                    APIError::InvalidCredentials(m) => {
                        &&& spec_credentials_invalid(
                            self.users@,
                            credentials.username@,
                            credentials.password@,
                        )
                        &&& m@ == "Invalid username or password!"@
                    },
                    APIError::InternalError(_) => !spec_credentials_invalid(
                        self.users@,
                        credentials.username@,
                        credentials.password@,
                    ),
                    _ => false,
                },
            }),
    {
        let user = match self.users.find_by_username(&credentials.username) {
            Some(u) => u,
            None => return Err(
                APIError::InvalidCredentials("Invalid username or password!".to_owned()),
            ),
        };
        let password_ok = match user.check_password(credentials.password.as_str()) {
            Some(b) => b,
            None => return Err(
                APIError::InternalError("Something went wrong! Try again!".to_owned()),
            ),
        };
        if !password_ok {
            return Err(APIError::InvalidCredentials("Invalid username or password!".to_owned()));
        }
        if now > u64::MAX - TOKEN_LIFETIME_SECS {
            return Err(APIError::InternalError("Something went wrong! Try again!".to_owned()));
        }
        let token = token_codec::issue(user.id, now, &self.secret);
        Ok(LoginResponse { user: user.sanitized(), token })
    }

    /// Log in at the current wall-clock time. The clock pins no expiry, so
    /// the token is only promised to be a correctly signed one for the found
    /// account at some issuance time.
    pub fn login(&self, credentials: &Credentials) -> (r: Result<LoginResponse, APIError>)
        requires
            self.users.wf(),
        ensures
            r is Ok ==> spec_credentials_good(
                self.users@,
                credentials.username@,
                credentials.password@,
            ),
            (match r {
                Ok(resp) => {
                    let u = spec_user_with_username(self.users@, credentials.username@);
                    &&& resp.user == u.spec_sanitized()
                    &&& exists|exp: int|
                        jwt_claims_of(resp.token@, self.secret@) == Some((u.id as int, exp))
                },
                Err(e) => match e {
                    APIError::InvalidCredentials(m) => {
                        &&& spec_credentials_invalid(
                            self.users@,
                            credentials.username@,
                            credentials.password@,
                        )
                        &&& m@ == "Invalid username or password!"@
                    },
                    APIError::InternalError(_) => !spec_credentials_invalid(
                        self.users@,
                        credentials.username@,
                        credentials.password@,
                    ),
                    _ => false,
                },
            }),
    {
        let now = current_time();
        self.login_at(credentials, now)
    }

    /// Law: an account just created accepts the very password it was
    /// created with — the salt survives its encoded storage and the hash
    /// recomputes to the stored hash, so login succeeds and returns a token.
    pub fn register_then_login(&mut self, user: crate::user_model::UserDto, created_at: String, now: u64) -> (r: Result<
        LoginResponse,
        APIError,
    >)
        requires
            old(self).users.wf(),
            !spec_has_username(old(self).users@, user.username@),
            old(self).users.spec_next_id() < i32::MAX,
            now + TOKEN_LIFETIME_SECS <= u64::MAX,
        ensures
            r is Ok,
    {
        let credentials = Credentials {
            username: user.username.clone(),
            password: user.password.clone(),
        };
        let created = self.users.create_user(user, created_at);
        proof {
            assert(created is Ok);
            let d = self.users@;
            let stored = d.last();
            assert(stored.spec_password_matches(credentials.password@));
            let k = crate::user_directory::spec_index_of_username(d, credentials.username@);
            assert(0 <= k < d.len() && d[k].username@ == credentials.username@);
            if k < d.len() - 1 {
                assert(d[k].username@ != d[d.len() - 1].username@);
            }
            assert(spec_user_with_username(d, credentials.username@) == stored);
        }
        self.login_at(&credentials, now)
    }

    /// Record the presented token as revoked. The token need not be
    /// currently valid: revoking an expired, malformed or already-revoked
    /// token succeeds all the same.
    pub fn logout(&mut self, token: &Token) -> (r: Result<(), APIError>)
        ensures
            r is Ok,
            final(self).store@ == old(self).store@.insert(token@),
            final(self).users == old(self).users,
            final(self).secret == old(self).secret,
    {
        self.store.revoke(token);
        Ok(())
    }

    /// Whether a presented token is structurally valid, unexpired at `now`,
    /// and not on the blacklist; whether its subject still exists is not
    /// checked here.
    pub fn status(&self, token: Option<&Token>, now: u64) -> (r: bool)
        ensures
            r == (match token {
                Some(t) => spec_decode(t@, self.secret@, now as int) is Some
                    && !self.store@.contains(t@),
                None => false,
            }),
    {
        match token {
            Some(t) => {
                if self.store.is_revoked(t) {
                    false
                } else {
                    token_codec::decode(t, &self.secret, now).is_some()
                }
            },
            None => false,
        }
    }
}

} // verus!
