//! Account handlers: registration and lookup by email.

use vstd::prelude::*;

use crate::control::{
    STATUS_CREATED, STATUS_CONFLICT, STATUS_INTERNAL_SERVER_ERROR, STATUS_NOT_FOUND,
};
use crate::domain::{User, UserData, UserRow};
use crate::model::{has_user_email, StoreModel};
use crate::repository::users::UserRepository;

verus! {

/// Registration: 201 and the appended account, 409 for a taken email, 500
/// while the store is unreachable or the id space is exhausted.
pub open spec fn post_users_outcome(
    pre: StoreModel,
    post: StoreModel,
    email: Seq<char>,
    password_hash: Seq<char>,
    status: u16,
) -> bool {
    if pre.failing || pre.next_id > i32::MAX - 1 {
        status == STATUS_INTERNAL_SERVER_ERROR && post == pre
    } else if has_user_email(pre.users, email) {
        status == STATUS_CONFLICT && post == pre
    } else {
        status == STATUS_CREATED && post == StoreModel {
            users: pre.users.push(
                UserRow { id: pre.next_id, email: email, password_hash: password_hash },
            ),
            next_id: pre.next_id + 1,
            ..pre
        }
    }
}

pub fn post_users<T: UserRepository>(repository: &mut T, data: UserData) -> (status: u16)
    requires
        old(repository).user_inv(),
    ensures
        final(repository).user_inv(),
        post_users_outcome(
            old(repository).user_view(),
            final(repository).user_view(),
            data.email@,
            data.password_hash@,
            status,
        ),
{
    match repository.insert(data) {
        Ok(()) => STATUS_CREATED,
        Err(crate::repository::users::UserInsertError::Duplicate) => STATUS_CONFLICT,
        Err(crate::repository::users::UserInsertError::Unknown) => STATUS_INTERNAL_SERVER_ERROR,
    }
}

/// Lookup: the account, 404 for an unknown email, 500 while the store is
/// unreachable.
pub open spec fn get_users_outcome(m: StoreModel, email: Seq<char>, r: Result<User, u16>) -> bool {
    if m.failing {
        r == Err::<User, u16>(STATUS_INTERNAL_SERVER_ERROR)
    } else if !has_user_email(m.users, email) {
        r == Err::<User, u16>(STATUS_NOT_FOUND)
    } else {
        r matches Ok(u) && u@.email == email && m.users.contains(u@)
    }
}

pub fn get_users<T: UserRepository>(repository: &T, user_email: &str) -> (r: Result<User, u16>)
    requires
        repository.user_inv(),
    ensures
        get_users_outcome(repository.user_view(), user_email@, r),
{
    match repository.get_by_email(user_email) {
        Ok(user) => Ok(user),
        Err(crate::repository::users::UserGetError::Missing) => Err(STATUS_NOT_FOUND),
        Err(crate::repository::users::UserGetError::Unknown) => Err(STATUS_INTERNAL_SERVER_ERROR),
    }
}

} // verus!
