//! Session handlers: create on login, resolve a bearer token, end on logout.

use vstd::prelude::*;

use crate::control::{
    STATUS_CREATED, STATUS_CONFLICT, STATUS_INTERNAL_SERVER_ERROR, STATUS_NOT_FOUND,
    STATUS_NO_CONTENT,
};
use crate::domain::{Session, SessionData, SessionRow};
use crate::model::{has_session, session_join_ok, without_session, StoreModel};
use crate::repository::sessions::{session_get_ok, SessionRepository};

verus! {

/// Creation: 201 and the appended row, 409 for a duplicate token, 500 while
/// the store is unreachable; only success changes the store.
pub open spec fn post_sessions_outcome(
    pre: StoreModel,
    post: StoreModel,
    s: SessionRow,
    status: u16,
) -> bool {
    if pre.failing {
        status == STATUS_INTERNAL_SERVER_ERROR && post == pre
    } else if has_session(pre.sessions, s.id) {
        status == STATUS_CONFLICT && post == pre
    } else {
        status == STATUS_CREATED && post == StoreModel { sessions: pre.sessions.push(s), ..pre }
    }
}

pub fn post_sessions<T: SessionRepository>(repository: &mut T, data: &SessionData) -> (status: u16)
    requires
        old(repository).session_inv(),
    ensures
        final(repository).session_inv(),
        post_sessions_outcome(
            old(repository).session_view(),
            final(repository).session_view(),
            data@,
            status,
        ),
{
    match repository.insert(data) {
        Ok(()) => STATUS_CREATED,
        Err(crate::repository::sessions::SessionInsertError::Duplicate) => STATUS_CONFLICT,
        Err(crate::repository::sessions::SessionInsertError::Unknown) => (
        STATUS_INTERNAL_SERVER_ERROR),
    }
}

/// Resolution: the joined principal, 404 when the token or its user is
/// unknown, 500 while the store is unreachable.
pub open spec fn get_sessions_outcome(
    m: StoreModel,
    token: Seq<char>,
    r: Result<Session, u16>,
) -> bool {
    if m.failing {
        r == Err::<Session, u16>(STATUS_INTERNAL_SERVER_ERROR)
    } else if !session_join_ok(m, token) {
        r == Err::<Session, u16>(STATUS_NOT_FOUND)
    } else {
        r matches Ok(s) && session_get_ok(m, token, s@)
    }
}

pub fn get_sessions<T: SessionRepository>(repository: &T, token: &str) -> (r: Result<Session, u16>)
    requires
        repository.session_inv(),
    ensures
        get_sessions_outcome(repository.session_view(), token@, r),
{
    match repository.get(token) {
        Ok(session) => Ok(session),
        Err(crate::repository::sessions::SessionGetError::Missing) => Err(STATUS_NOT_FOUND),
        Err(crate::repository::sessions::SessionGetError::Unknown) => Err(
            STATUS_INTERNAL_SERVER_ERROR,
        ),
    }
}

/// Deletion: 204 whether or not the token existed, 500 while the store is
/// unreachable; afterwards no session carries the token.
pub open spec fn delete_sessions_outcome(
    pre: StoreModel,
    post: StoreModel,
    token: Seq<char>,
    status: u16,
) -> bool {
    if pre.failing {
        status == STATUS_INTERNAL_SERVER_ERROR && post == pre
    } else {
        status == STATUS_NO_CONTENT && post == StoreModel {
            sessions: without_session(pre.sessions, token),
            ..pre
        }
    }
}

pub fn delete_sessions<T: SessionRepository>(repository: &mut T, token: &str) -> (status: u16)
    requires
        old(repository).session_inv(),
    ensures
        final(repository).session_inv(),
        delete_sessions_outcome(
            old(repository).session_view(),
            final(repository).session_view(),
            token@,
            status,
        ),
{
    match repository.delete(token) {
        Ok(()) => STATUS_NO_CONTENT,
        Err(crate::repository::sessions::SessionDeleteError::Unknown) => (
        STATUS_INTERNAL_SERVER_ERROR),
    }
}

} // verus!
