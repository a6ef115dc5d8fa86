//! The user-lookup collaborator: an in-memory directory of stored account
//! records, unique by id and by username, together with the account
//! operations that the handlers delegate to it.
use vstd::prelude::*;

use crate::errors::{DBError, UserError};
use crate::hasher;
use crate::user_model::{StoredUser, User, UserDto, UserUpdateDto};

verus! {

/// Whether some record in `d` carries this username.
pub open spec fn spec_has_username(d: Seq<StoredUser>, username: Seq<char>) -> bool {
    exists|i: int| 0 <= i < d.len() && d[i].username@ == username
}

/// Whether some record in `d` carries this id.
pub open spec fn spec_has_id(d: Seq<StoredUser>, id: int) -> bool {
    exists|i: int| 0 <= i < d.len() && d[i].id as int == id
}

/// The position of the record carrying this username (unique in a
/// well-formed directory).
pub open spec fn spec_index_of_username(d: Seq<StoredUser>, username: Seq<char>) -> int {
    choose|i: int| 0 <= i < d.len() && d[i].username@ == username
}

/// The position of the record carrying this id (unique in a well-formed
/// directory).
pub open spec fn spec_index_of_id(d: Seq<StoredUser>, id: int) -> int {
    choose|i: int| 0 <= i < d.len() && d[i].id as int == id
}

/// The record carrying this username.
pub open spec fn spec_user_with_username(d: Seq<StoredUser>, username: Seq<char>) -> StoredUser {
    d[spec_index_of_username(d, username)]
}

/// The record carrying this id.
pub open spec fn spec_user_with_id(d: Seq<StoredUser>, id: int) -> StoredUser {
    d[spec_index_of_id(d, id)]
}

/// No two records share an id.
pub open spec fn spec_ids_unique(d: Seq<StoredUser>) -> bool {
    forall|i: int, j: int| 0 <= i < j < d.len() ==> d[i].id != d[j].id
}

/// No two records share a username.
pub open spec fn spec_usernames_unique(d: Seq<StoredUser>) -> bool {
    forall|i: int, j: int| 0 <= i < j < d.len() ==> d[i].username@ != d[j].username@
}

/// The merge of a partial update into a stored record: identity, password
/// hash, salt and creation time stay as they were.
pub open spec fn spec_apply_user_update(stored: StoredUser, up: UserUpdateDto) -> StoredUser {
    StoredUser {
        id: stored.id,
        username: match up.username {
            Some(u) => u,
            None => stored.username,
        },
        password_hash: stored.password_hash,
        salt: stored.salt,
        first_name: match up.first_name {
            Some(f) => f,
            None => stored.first_name,
        },
        last_name: match up.last_name {
            Some(l) => l,
            None => stored.last_name,
        },
        email: match up.email {
            Some(e) => e,
            None => stored.email,
        },
        created_at: stored.created_at,
    }
}

/// Whether renaming the record with this id as the update asks would collide
/// with another record's username.
pub open spec fn spec_update_name_clash(d: Seq<StoredUser>, id: int, new_name: Option<String>) -> bool {
    match new_name {
        Some(n) => exists|j: int| 0 <= j < d.len() && d[j].id as int != id && d[j].username@ == n@,
        None => false,
    }
}

/// The in-memory directory of stored account records.
pub struct UserDirectory {
    users: Vec<StoredUser>,
    next_id: i32,
}

impl View for UserDirectory {
    type V = Seq<StoredUser>;

    closed spec fn view(&self) -> Seq<StoredUser> {
        self.users@
    }
}

impl UserDirectory {
    /// The id the next created account will get.
    pub closed spec fn spec_next_id(&self) -> int {
        self.next_id as int
    }

    /// Well-formed: ids and usernames are unique, and every id lies below
    /// the next id to be assigned.
    pub open spec fn wf(&self) -> bool {
        &&& spec_ids_unique(self@)
        &&& spec_usernames_unique(self@)
        &&& 1 <= self.spec_next_id() <= i32::MAX
        &&& forall|i: int| 0 <= i < self@.len() ==> (#[trigger] self@[i]).id < self.spec_next_id()
    }

    /// An empty directory.
    pub fn new() -> (r: UserDirectory)
        ensures
            r.wf(),
            r@ == Seq::<StoredUser>::empty(),
            r.spec_next_id() == 1,
    {
        let r = UserDirectory { users: Vec::new(), next_id: 1 };
        proof {
            assert(r@ =~= Seq::<StoredUser>::empty());
        }
        r
    }

    /// Look a record up by exact username.
    pub fn find_by_username(&self, username: &String) -> (r: Option<&StoredUser>)
        ensures
            (match r {
                Some(u) => {
                    &&& u.username@ == username@
                    &&& spec_has_username(self@, username@)
                    &&& exists|i: int| 0 <= i < self@.len() && self@[i] == *u
                    &&& (self.wf() ==> *u == spec_user_with_username(self@, username@))
                },
                None => !spec_has_username(self@, username@),
            }),
    {
        let n = self.users.len();
        let mut i: usize = 0;
        while i < n
            invariant
                n == self.users@.len(),
                0 <= i <= n,
                forall|j: int| 0 <= j < i ==> self.users@[j].username@ != username@,
            decreases n - i,
        {
            if self.users[i].username == *username {
                proof {
                    assert(self@[i as int].username@ == username@);
                    if self.wf() {
                        let k = spec_index_of_username(self@, username@);
                        assert(0 <= k < self@.len() && self@[k].username@ == username@);
                        if k < i as int {
                            assert(self@[k].username@ != self@[i as int].username@);
                        }
                        if (i as int) < k {
                            assert(self@[i as int].username@ != self@[k].username@);
                        }
                        assert(k == i as int);
                    }
                }
                return Some(&self.users[i]);
            }
            i += 1;
        }
        None
    }

    /// Look a record up by id.
    pub fn find_by_id(&self, id: i32) -> (r: Option<&StoredUser>)
        ensures
            (match r {
                Some(u) => {
                    &&& u.id == id
                    &&& spec_has_id(self@, id as int)
                    &&& exists|i: int| 0 <= i < self@.len() && self@[i] == *u
                    &&& (self.wf() ==> *u == spec_user_with_id(self@, id as int))
                },
                None => !spec_has_id(self@, id as int),
            }),
    {
        let n = self.users.len();
        let mut i: usize = 0;
        while i < n
            invariant
                n == self.users@.len(),
                0 <= i <= n,
                forall|j: int| 0 <= j < i ==> self.users@[j].id != id,
            decreases n - i,
        {
            if self.users[i].id == id {
                proof {
                    assert(self@[i as int].id == id);
                    if self.wf() {
                        let k = spec_index_of_id(self@, id as int);
                        assert(0 <= k < self@.len() && self@[k].id as int == id as int);
                        if k < i as int {
                            assert(self@[k].id != self@[i as int].id);
                        }
                        if (i as int) < k {
                            assert(self@[i as int].id != self@[k].id);
                        }
                        assert(k == i as int);
                    }
                }
                return Some(&self.users[i]);
            }
            i += 1;
        }
        None
    }

    /// Create an account: salt and hash the password, assign the next id,
    /// and append the record. Fails (as the backing store's unique
    /// constraint would) when the username is taken, or when the id space is
    /// exhausted.
    pub fn create_user(&mut self, user: UserDto, created_at: String) -> (r: Result<User, UserError>)
        requires
            old(self).wf(),
        ensures
            final(self).wf(),
            r is Ok <==> (!spec_has_username(old(self)@, user.username@) && old(self).spec_next_id()
                < i32::MAX),
            (match r {
                Ok(u) => {
                    let stored = final(self)@.last();
                    &&& final(self)@ == old(self)@.push(stored)
                    &&& final(self).spec_next_id() == old(self).spec_next_id() + 1
                    &&& stored.id as int == old(self).spec_next_id()
                    &&& stored.username == user.username
                    &&& stored.first_name == user.first_name
                    &&& stored.last_name == user.last_name
                    &&& stored.email == user.email
                    &&& stored.created_at == created_at
                    &&& stored.spec_password_matches(user.password@)
                    &&& u == stored.spec_sanitized()
                },
                Err(e) => {
                    &&& *final(self) == *old(self)
                    &&& e matches UserError::DatabaseError
                },
            }),
    {
        if self.find_by_username(&user.username).is_some() {
            return Err(UserError::DatabaseError);
        }
        if self.next_id == i32::MAX {
            return Err(UserError::DatabaseError);
        }
        let salt = hasher::generate_salt();
        let salt_b64 = hasher::b64_encode(&salt);
        let password_hash = hasher::hash(user.password.as_str(), &salt);
        let id = self.next_id;
        self.next_id = self.next_id + 1;
        let stored = StoredUser {
            id,
            username: user.username,
            password_hash,
            salt: salt_b64,
            first_name: user.first_name,
            last_name: user.last_name,
            email: user.email,
            created_at,
        };
        let result = stored.sanitized();
        self.users.push(stored);
        proof {
            let post = self@;
            let pre = old(self)@;
            assert(post == pre.push(post.last()));
            assert forall|i: int, j: int| 0 <= i < j < post.len() implies post[i].id != post[j].id by {
                if j < pre.len() {
                } else {
                    assert(post[j].id as int == old(self).spec_next_id());
                    assert(pre[i].id < old(self).spec_next_id());
                }
            }
            assert forall|i: int, j: int| 0 <= i < j < post.len() implies post[i].username@
                != post[j].username@ by {
                if j == pre.len() {
                    assert(!spec_has_username(pre, post[j].username@));
                    assert(pre[i].username@ != post[j].username@);
                }
            }
        }
        Ok(result)
    }

    /// Fetch the sanitized record with this id; absence is a store error.
    pub fn get_user(&self, id: i32) -> (r: Result<User, DBError>)
        requires
            self.wf(),
        ensures
            (match r {
                Ok(u) => spec_has_id(self@, id as int) && u == spec_user_with_id(
                    self@,
                    id as int,
                ).spec_sanitized(),
                Err(e) => !spec_has_id(self@, id as int) && e matches DBError::Other(_),
            }),
    {
        match self.find_by_id(id) {
            Some(u) => Ok(u.sanitized()),
            None => Err(DBError::Other("no user with the requested id".to_owned())),
        }
    }

    /// Merge a partial update into the record with this id and store the
    /// result. Fails when the id is unknown, or when the requested new
    /// username would collide with another record's.
    pub fn update_user(&mut self, user_update: UserUpdateDto, user_id: i32) -> (r: Result<
        User,
        UserError,
    >)
        requires
            old(self).wf(),
        ensures
            final(self).wf(),
            final(self).spec_next_id() == old(self).spec_next_id(),
            r is Ok <==> (spec_has_id(old(self)@, user_id as int) && !spec_update_name_clash(
                old(self)@,
                user_id as int,
                user_update.username,
            )),
            (match r {
                Ok(u) => {
                    let idx = spec_index_of_id(old(self)@, user_id as int);
                    let merged = spec_apply_user_update(old(self)@[idx], user_update);
                    &&& final(self)@ == old(self)@.update(idx, merged)
                    &&& u == merged.spec_sanitized()
                },
                Err(e) => {
                    &&& *final(self) == *old(self)
                    &&& e matches UserError::DatabaseError
                },
            }),
    {
        let n = self.users.len();
        let idx = match self.find_index_of_id(user_id) {
            Some(i) => i,
            None => return Err(UserError::DatabaseError),
        };
        let UserUpdateDto { username, first_name, last_name, email } = user_update;
        if let Some(name) = &username {
            let mut j: usize = 0;
            while j < n
                invariant
                    *self == *old(self),
                    old(self).wf(),
                    spec_has_id(old(self)@, user_id as int),
                    n == self.users@.len(),
                    0 <= j <= n,
                    0 <= idx < n,
                    user_update.username is Some,
                    name@ == (match user_update.username {
                        Some(nm) => nm@,
                        None => Seq::<char>::empty(),
                    }),
                    forall|k: int|
                        0 <= k < j && self.users@[k].id != user_id ==> self.users@[k].username@
                            != name@,
                decreases n - j,
            {
                if self.users[j].id != user_id && self.users[j].username == *name {
                    proof {
                        assert(old(self)@[j as int].id as int != user_id as int);
                        assert(old(self)@[j as int].username@ == name@);
                        assert(spec_update_name_clash(old(self)@, user_id as int, user_update.username));
                    }
                    return Err(UserError::DatabaseError);
                }
                j += 1;
            }
            proof {
                assert forall|k: int|
                    0 <= k < self@.len() && self@[k].id as int != user_id as int implies self@[k].username@
                    != name@ by {
                    assert(self.users@[k].id != user_id);
                }
            }
        }
        let merged = {
            let stored = &self.users[idx];
            StoredUser {
                id: stored.id,
                username: match username {
                    Some(u2) => u2,
                    None => stored.username.clone(),
                },
                password_hash: stored.password_hash.clone(),
                salt: stored.salt.clone(),
                first_name: match first_name {
                    Some(f) => f,
                    None => stored.first_name.clone(),
                },
                last_name: match last_name {
                    Some(l) => l,
                    None => stored.last_name.clone(),
                },
                email: match email {
                    Some(e2) => e2,
                    None => stored.email.clone(),
                },
                created_at: stored.created_at.clone(),
            }
        };
        proof {
            assert(merged == spec_apply_user_update(old(self)@[idx as int], user_update));
        }
        let result = merged.sanitized();
        let _removed = self.users.remove(idx);
        self.users.insert(idx, merged);
        proof {
            let pre = old(self)@;
            let post = self@;
            let m = spec_apply_user_update(pre[idx as int], user_update);
            assert(post =~= pre.update(idx as int, m));
            assert forall|i: int, j: int| 0 <= i < j < post.len() implies post[i].id != post[j].id by {
                assert(pre[i].id != pre[j].id);
                assert(post[i].id == pre[i].id && post[j].id == pre[j].id);
            }
            assert forall|i: int, j: int| 0 <= i < j < post.len() implies post[i].username@
                != post[j].username@ by {
                if i != idx as int && j != idx as int {
                    assert(pre[i].username@ != pre[j].username@);
                } else {
                    let other = if i == idx as int {
                        j
                    } else {
                        i
                    };
                    assert(pre[other].id != pre[idx as int].id);
                    match user_update.username {
                        Some(nm) => {
                            assert(pre[other].username@ != nm@);
                        },
                        None => {
                            assert(pre[other].username@ != pre[idx as int].username@);
                        },
                    }
                }
            }
            assert forall|i: int| 0 <= i < post.len() implies (#[trigger] post[i]).id
                < final(self).spec_next_id() by {
                assert(post[i].id == pre[i].id);
            }
        }
        Ok(result)
    }

    /// Remove the record with this id; removing an unknown id is a no-op, as
    /// the backing store's delete would be.
    pub fn delete_user(&mut self, user_id: i32) -> (r: Result<(), UserError>)
        requires
            old(self).wf(),
        ensures
            final(self).wf(),
            final(self).spec_next_id() == old(self).spec_next_id(),
            r is Ok,
            spec_has_id(old(self)@, user_id as int) ==> final(self)@ == old(self)@.remove(
                spec_index_of_id(old(self)@, user_id as int),
            ),
            !spec_has_id(old(self)@, user_id as int) ==> final(self)@ == old(self)@,
    {
        match self.find_index_of_id(user_id) {
            Some(idx) => {
                let _removed = self.users.remove(idx);
                proof {
                    let pre = old(self)@;
                    let post = self@;
                    assert forall|i: int, j: int| 0 <= i < j < post.len() implies post[i].id
                        != post[j].id by {
                        let pi = if i < idx as int {
                            i
                        } else {
                            i + 1
                        };
                        let pj = if j < idx as int {
                            j
                        } else {
                            j + 1
                        };
                        assert(post[i] == pre[pi] && post[j] == pre[pj]);
                        assert(pre[pi].id != pre[pj].id);
                    }
                    assert forall|i: int, j: int| 0 <= i < j < post.len() implies post[i].username@
                        != post[j].username@ by {
                        let pi = if i < idx as int {
                            i
                        } else {
                            i + 1
                        };
                        let pj = if j < idx as int {
                            j
                        } else {
                            j + 1
                        };
                        assert(post[i] == pre[pi] && post[j] == pre[pj]);
                        assert(pre[pi].username@ != pre[pj].username@);
                    }
                    assert forall|i: int| 0 <= i < post.len() implies (#[trigger] post[i]).id
                        < final(self).spec_next_id() by {
                        let pi = if i < idx as int {
                            i
                        } else {
                            i + 1
                        };
                        assert(post[i] == pre[pi]);
                    }
                }
                Ok(())
            },
            None => Ok(()),
        }
    }

    /// The position of the record with this id, where one exists.
    fn find_index_of_id(&self, id: i32) -> (r: Option<usize>)
        requires
            self.wf(),
        ensures
            (match r {
                Some(i) => 0 <= i < self@.len() && self@[i as int].id == id && i as int
                    == spec_index_of_id(self@, id as int),
                None => !spec_has_id(self@, id as int),
            }),
    {
        let n = self.users.len();
        let mut i: usize = 0;
        while i < n
            invariant
                n == self.users@.len(),
                0 <= i <= n,
                forall|j: int| 0 <= j < i ==> self.users@[j].id != id,
                self.wf(),
            decreases n - i,
        {
            if self.users[i].id == id {
                proof {
                    let k = spec_index_of_id(self@, id as int);
                    assert(0 <= k < self@.len() && self@[k].id as int == id as int);
                    if k < i as int {
                        assert(self@[k].id != self@[i as int].id);
                    }
                    if (i as int) < k {
                        assert(self@[i as int].id != self@[k].id);
                    }
                }
                return Some(i);
            }
            i += 1;
        }
        None
    }
}

} // verus!
