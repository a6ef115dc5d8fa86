//! User account records: the sanitized record handed to callers, the
//! transfer records for creation and update, and the stored record that keeps
//! the password hash paired with the salt that produced it.
use vstd::prelude::*;

use crate::hasher;
use crate::hasher::{b64_decode_of, bcrypt_hash_of};

verus! {

/// A user account as callers see it: no password hash, no salt.
#[derive(Debug, Clone)]
pub struct User {
    pub id: i32,
    pub username: String,
    pub first_name: String,
    pub last_name: String,
    pub email: String,
    pub created_at: String,
}

/// The fields a caller supplies to create an account.
#[derive(Debug)]
pub struct UserDto {
    pub username: String,
    pub password: String,
    pub first_name: String,
    pub last_name: String,
    pub email: String,
}

/// A partial update: absent fields keep their stored value.
#[derive(Debug)]
pub struct UserUpdateDto {
    pub username: Option<String>,
    pub first_name: Option<String>,
    pub last_name: Option<String>,
    pub email: Option<String>,
}

impl User {
    /// Merge a partial update into this record: every present field replaces
    /// the stored one, absent fields and the identity fields stay.
    pub fn apply_update(self, update: UserUpdateDto) -> (r: User)
        ensures
            r.id == self.id,
            r.created_at == self.created_at,
            r.username == (match update.username {
                Some(u) => u,
                None => self.username,
            }),
            r.first_name == (match update.first_name {
                Some(f) => f,
                None => self.first_name,
            }),
            r.last_name == (match update.last_name {
                Some(l) => l,
                None => self.last_name,
            }),
            r.email == (match update.email {
                Some(e) => e,
                None => self.email,
            }),
    {
        let User { id, mut username, mut first_name, mut last_name, mut email, created_at } = self;
        if let Some(u) = update.username {
            username = u;
        }
        if let Some(f) = update.first_name {
            first_name = f;
        }
        if let Some(l) = update.last_name {
            last_name = l;
        }
        if let Some(e) = update.email {
            email = e;
        }
        User { id, username, first_name, last_name, email, created_at }
    }
}

/// A persisted account record. The salt is held base64-encoded, exactly as
/// the backing store keeps it; `password_hash` is the bcrypt hash of the
/// account password with that salt.
#[derive(Debug, Clone)]
pub struct StoredUser {
    pub id: i32,
    pub username: String,
    pub password_hash: String,
    pub salt: String,
    pub first_name: String,
    pub last_name: String,
    pub email: String,
    pub created_at: String,
}

impl StoredUser {
    /// The raw salt bytes, where the stored salt is valid base64 of exactly
    /// 16 bytes; `None` where it is malformed.
    pub open spec fn spec_salt_bytes(self) -> Option<Seq<u8>> {
        match b64_decode_of(self.salt@) {
            Some(bs) => if bs.len() == 16 {
                Some(bs)
            } else {
                None
            },
            None => None,
        }
    }

    /// Whether the stored salt decodes to the 16 bytes hashing needs.
    pub open spec fn salt_wf(self) -> bool {
        self.spec_salt_bytes() is Some
    }

    /// Whether a candidate password is this account's password: the salt is
    /// well formed and hashing the candidate with it gives the stored hash.
    pub open spec fn spec_password_matches(self, password: Seq<char>) -> bool {
        &&& self.salt_wf()
        &&& self.password_hash@ == bcrypt_hash_of(password, self.spec_salt_bytes().unwrap())
    }

    /// The record with the hash and salt stripped.
    pub open spec fn spec_sanitized(self) -> User {
        User {
            id: self.id,
            username: self.username,
            first_name: self.first_name,
            last_name: self.last_name,
            email: self.email,
            created_at: self.created_at,
        }
    }

    /// Decode the stored salt; `None` is the malformed-salt case.
    pub fn salt_bytes(&self) -> (r: Option<Vec<u8>>)
        ensures
            (match r {
                Some(v) => self.spec_salt_bytes() == Some(v@),
                None => self.spec_salt_bytes() is None,
            }),
    {
        match hasher::b64_decode(self.salt.as_str()) {
            Some(v) => if v.len() == 16 {
                Some(v)
            } else {
                None
            },
            None => None,
        }
    }

    /// Recompute the candidate's hash with the stored salt and compare.
    /// `None` means the stored salt is malformed: an internal error, never
    /// reported as a mismatch.
    pub fn check_password(&self, password: &str) -> (r: Option<bool>)
        ensures
            (match r {
                Some(b) => self.salt_wf() && b == self.spec_password_matches(password@),
                None => !self.salt_wf(),
            }),
    {
        match self.salt_bytes() {
            Some(bytes) => Some(hasher::verify(password, &bytes, &self.password_hash)),
            None => None,
        }
    }

    /// Strip the hash and salt before the record leaves the auth boundary.
    pub fn sanitized(&self) -> (r: User)
        ensures
            r == self.spec_sanitized(),
    {
        User {
            id: self.id,
            username: self.username.clone(),
            first_name: self.first_name.clone(),
            last_name: self.last_name.clone(),
            email: self.email.clone(),
            created_at: self.created_at.clone(),
        }
    }
}

} // verus!
