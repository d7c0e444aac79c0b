//! Sharing handlers: redeem a share token as the caller, and mint one for a
//! project the caller owns.

use vstd::prelude::*;

use crate::control::{STATUS_CREATED, STATUS_INTERNAL_SERVER_ERROR};
use crate::domain::{GrantRow, TokenRow};
use crate::model::{has_token, owns_project, StoreModel};
use crate::repository::sharing::{
    token_chars_ok, token_project_of, ProjectSharingCreateError, ProjectSharingRepository,
    ProjectSharingUpdateError,
};

verus! {

/// Redemption: 201 and a recorded grant for a known token, 500 otherwise —
/// every redemption of a known token appends a grant, so redeeming twice
/// never errors.
pub open spec fn post_projects_sharing_outcome(
    pre: StoreModel,
    post: StoreModel,
    token: Seq<char>,
    user_id: int,
    status: u16,
) -> bool {
    if pre.failing || !has_token(pre.tokens, token) {
        status == STATUS_INTERNAL_SERVER_ERROR && post == pre
    } else {
        status == STATUS_CREATED && post == StoreModel {
            grants: pre.grants.push(
                GrantRow { friend_id: user_id, project_id: token_project_of(pre.tokens, token) },
            ),
            ..pre
        }
    }
}

pub fn post_projects_sharing<T: ProjectSharingRepository>(
    repository: &mut T,
    user_id: i32,
    token: String,
) -> (status: u16)
    requires
        old(repository).sharing_inv(),
    ensures
        final(repository).sharing_inv(),
        post_projects_sharing_outcome(
            old(repository).sharing_view(),
            final(repository).sharing_view(),
            token@,
            user_id as int,
            status,
        ),
{
    match repository.update(token, user_id) {
        Ok(()) => STATUS_CREATED,
        Err(ProjectSharingUpdateError::Unknown) => STATUS_INTERNAL_SERVER_ERROR,
    }
}

/// Minting: the owner receives a fresh 64-character token and the token row
/// is recorded; anyone else — or a failing store, or a colliding draw — gets
/// 500 with the store unchanged.
pub open spec fn put_projects_sharing_outcome(
    pre: StoreModel,
    post: StoreModel,
    project_id: int,
    user_id: int,
    r: Result<String, u16>,
) -> bool {
    if pre.failing || !owns_project(pre.projects, project_id, user_id) {
        r == Err::<String, u16>(STATUS_INTERNAL_SERVER_ERROR) && post == pre
    } else {
        match r {
            Ok(t) => t@.len() == 64 && token_chars_ok(t@) && !has_token(pre.tokens, t@) && post
                == StoreModel {
                tokens: pre.tokens.push(TokenRow { token: t@, project_id: project_id }),
                ..pre
            },
            Err(status) => status == STATUS_INTERNAL_SERVER_ERROR && post == pre,
        }
    }
}

pub fn put_projects_sharing<T: ProjectSharingRepository>(
    repository: &mut T,
    user_id: i32,
    project_id: i32,
) -> (r: Result<String, u16>)
    requires
        old(repository).sharing_inv(),
    ensures
        final(repository).sharing_inv(),
        put_projects_sharing_outcome(
            old(repository).sharing_view(),
            final(repository).sharing_view(),
            project_id as int,
            user_id as int,
            r,
        ),
{
    match repository.create(project_id, user_id) {
        Ok(token) => Ok(token),
        Err(ProjectSharingCreateError::Unknown) => Err(STATUS_INTERNAL_SERVER_ERROR),
    }
}

} // verus!
