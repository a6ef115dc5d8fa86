//! The handler bodies behind the user routes: each delegates to the user
//! directory and collapses any failure into the one generic internal error
//! shown to callers.
use vstd::prelude::*;

use crate::errors::HandlerError;
use crate::user_directory::{
    spec_has_id, spec_has_username, spec_index_of_id, spec_apply_user_update,
    spec_update_name_clash, spec_user_with_id, UserDirectory,
};
use crate::user_model::{User, UserDto, UserUpdateDto};

verus! {

/// Whether a handler error is the generic internal one.
pub open spec fn spec_is_internal(e: HandlerError) -> bool {
    e matches HandlerError::InternalError(m) && m@ == "Something went wrong! Please try again."@
}

/// Fetch a user by id; absence is reported as the generic internal error.
pub fn get_user(id: i32, users_dao: &UserDirectory) -> (r: Result<User, HandlerError>)
    requires
        users_dao.wf(),
    ensures
        r is Ok <==> spec_has_id(users_dao@, id as int),
        (match r {
            Ok(u) => u == spec_user_with_id(users_dao@, id as int).spec_sanitized(),
            Err(e) => spec_is_internal(e),
        }),
{
    match users_dao.get_user(id) {
        Ok(u) => Ok(u),
        Err(_) => Err(HandlerError::default_internal_error()),
    }
}

/// Merge a partial update into the user with this id and store the result;
/// any failure is reported as the generic internal error.
pub fn update_user(user: UserUpdateDto, id: i32, users_dao: &mut UserDirectory) -> (r: Result<
    User,
    HandlerError,
>)
    requires
        old(users_dao).wf(),
    ensures
        final(users_dao).wf(),
        r is Ok <==> (spec_has_id(old(users_dao)@, id as int) && !spec_update_name_clash(
            old(users_dao)@,
            id as int,
            user.username,
        )),
        (match r {
            Ok(u) => {
                let idx = spec_index_of_id(old(users_dao)@, id as int);
                let merged = spec_apply_user_update(old(users_dao)@[idx], user);
                &&& final(users_dao)@ == old(users_dao)@.update(idx, merged)
                &&& u == merged.spec_sanitized()
            },
            Err(e) => *final(users_dao) == *old(users_dao) && spec_is_internal(e),
        }),
{
    match users_dao.update_user(user, id) {
        Ok(u) => Ok(u),
        Err(_) => Err(HandlerError::default_internal_error()),
    }
}

/// Create an account; a taken username (or exhausted id space) is reported
/// as the generic internal error.
pub fn create_user(user: UserDto, created_at: String, users_dao: &mut UserDirectory) -> (r: Result<
    User,
    HandlerError,
>)
    requires
        old(users_dao).wf(),
    ensures
        final(users_dao).wf(),
        r is Ok <==> (!spec_has_username(old(users_dao)@, user.username@) && old(
            users_dao,
        ).spec_next_id() < i32::MAX),
        (match r {
            Ok(u) => {
                let stored = final(users_dao)@.last();
                &&& final(users_dao)@ == old(users_dao)@.push(stored)
                &&& stored.username == user.username
                &&& stored.spec_password_matches(user.password@)
                &&& stored.created_at == created_at
                &&& u == stored.spec_sanitized()
            },
            Err(e) => *final(users_dao) == *old(users_dao) && spec_is_internal(e),
        }),
{
    match users_dao.create_user(user, created_at) {
        Ok(u) => Ok(u),
        Err(_) => Err(HandlerError::default_internal_error()),
    }
}

/// Delete the account with this id; deleting an unknown id succeeds as a
/// no-op.
pub fn delete_user(id: i32, users_dao: &mut UserDirectory) -> (r: Result<(), HandlerError>)
    requires
        old(users_dao).wf(),
    ensures
        final(users_dao).wf(),
        r is Ok,
        spec_has_id(old(users_dao)@, id as int) ==> final(users_dao)@ == old(users_dao)@.remove(
            spec_index_of_id(old(users_dao)@, id as int),
        ),
        !spec_has_id(old(users_dao)@, id as int) ==> final(users_dao)@ == old(users_dao)@,
{
    match users_dao.delete_user(id) {
        Ok(()) => Ok(()),
        Err(_) => Err(HandlerError::default_internal_error()),
    }
}

} // verus!
