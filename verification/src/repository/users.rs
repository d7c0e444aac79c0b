//! Accounts: registration with a unique email, and lookup by email.

use vstd::prelude::*;

use crate::domain::{User, UserData, UserRow};
use crate::model::{has_user_email, StoreModel};
use crate::store::MemoryStore;

verus! {

#[derive(Debug, PartialEq, Eq)]
pub enum UserInsertError {
    Duplicate,
    Unknown,
}

#[derive(Debug, PartialEq, Eq)]
pub enum UserGetError {
    Missing,
    Unknown,
}

/// Registration refuses an email that is already taken with `Duplicate`;
/// otherwise it appends the account under a fresh id.
pub open spec fn user_insert_post(
    pre: StoreModel,
    post: StoreModel,
    email: Seq<char>,
    password_hash: Seq<char>,
    r: Result<(), UserInsertError>,
) -> bool {
    if pre.failing || pre.next_id > i32::MAX - 1 {
        r == Err::<(), UserInsertError>(UserInsertError::Unknown) && post == pre
    } else if has_user_email(pre.users, email) {
        r == Err::<(), UserInsertError>(UserInsertError::Duplicate) && post == pre
    } else {
        r == Ok::<(), UserInsertError>(()) && post == StoreModel {
            users: pre.users.push(
                UserRow { id: pre.next_id, email: email, password_hash: password_hash },
            ),
            next_id: pre.next_id + 1,
            ..pre
        }
    }
}

/// Lookup by email: the unique row with that email, `Missing` otherwise.
pub open spec fn user_get_post(m: StoreModel, email: Seq<char>, r: Result<User, UserGetError>) -> bool {
    if m.failing {
        r == Err::<User, UserGetError>(UserGetError::Unknown)
    } else if !has_user_email(m.users, email) {
        r == Err::<User, UserGetError>(UserGetError::Missing)
    } else {
        r matches Ok(u) && u@.email == email && m.users.contains(u@)
    }
}

/// Store operations on accounts.
pub trait UserRepository {
    spec fn user_inv(&self) -> bool;

    spec fn user_view(&self) -> StoreModel;

    /// Registers an account; an email already present is a `Duplicate`.
    fn insert(&mut self, data: UserData) -> (r: Result<(), UserInsertError>)
        requires
            old(self).user_inv(),
        ensures
            final(self).user_inv(),
            user_insert_post(
                old(self).user_view(),
                final(self).user_view(),
                data.email@,
                data.password_hash@,
                r,
            ),
    ;

    /// Fetches the account registered under the email.
    fn get_by_email(&self, email: &str) -> (r: Result<User, UserGetError>)
        requires
            self.user_inv(),
        ensures
            user_get_post(self.user_view(), email@, r),
    ;
}

impl UserRepository for MemoryStore {
    open spec fn user_inv(&self) -> bool {
        self.wf()
    }

    open spec fn user_view(&self) -> StoreModel {
        self@
    }

    fn insert(&mut self, data: UserData) -> (r: Result<(), UserInsertError>) {
        if self.failing || self.next_id > i32::MAX - 1 {
            return Err(UserInsertError::Unknown);
        }
        let present = self.find_user_by_email(data.email.as_str());
        if present.is_some() {
            proof {
                assert(has_user_email(self@.users, data.email@));
            }
            return Err(UserInsertError::Duplicate);
        }
        let ghost pre = self@;
        let row = User { id: self.next_id, email: data.email, password_hash: data.password_hash };
        self.next_id = self.next_id + 1;
        self.users.push(row);
        proof {
            assert(self@.users =~= pre.users.push(
                UserRow { id: pre.next_id, email: data.email@, password_hash: data.password_hash@ },
            ));
            assert(self@ =~= (StoreModel {
                users: pre.users.push(
                    UserRow {
                        id: pre.next_id,
                        email: data.email@,
                        password_hash: data.password_hash@,
                    },
                ),
                next_id: pre.next_id + 1,
                ..pre
            }));
            let nu = self@.users.len() - 1;
            assert forall|i: int, j: int| 0 <= i < j < self@.users.len() implies
                self@.users[i].id != self@.users[j].id by {
                if j == nu {
                    assert(pre.users[i].id < pre.next_id);
                }
            }
            assert forall|i: int, j: int| 0 <= i < j < self@.users.len() implies
                self@.users[i].email != self@.users[j].email by {
                if j == nu {
                    assert(!has_user_email(pre.users, self@.users[nu].email));
                    assert(pre.users[i].email != self@.users[nu].email);
                }
            }
            assert forall|i: int| 0 <= i < self@.projects.len() implies crate::model::has_user_id(
                self@.users,
                self@.projects[i].owner,
            ) by {
                assert(crate::model::has_user_id(pre.users, pre.projects[i].owner));
                let w = choose|k: int|
                    0 <= k < pre.users.len() && #[trigger] pre.users[k].id == pre.projects[i].owner;
                assert(self@.users[w].id == self@.projects[i].owner);
            }
        }
        Ok(())
    }

    fn get_by_email(&self, email: &str) -> (r: Result<User, UserGetError>) {
        if self.failing {
            return Err(UserGetError::Unknown);
        }
        match self.find_user_by_email(email) {
            Some(i) => {
                let u = self.users[i].clone();
                proof {
                    assert(self@.users[i as int] == self.users@[i as int]@);
                    assert(self@.users[i as int] == u@);
                    assert(self@.users.contains(u@));
                }
                Ok(u)
            },
            None => Err(UserGetError::Missing),
        }
    }
}

} // verus!
