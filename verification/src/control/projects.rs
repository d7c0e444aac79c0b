//! Project handlers: listing, provisioning, metadata fetch and rename.

use vstd::prelude::*;

use crate::control::{
    STATUS_CREATED, STATUS_INTERNAL_SERVER_ERROR, STATUS_NOT_FOUND, STATUS_NO_CONTENT,
};
use crate::domain::{Project, ProjectData};
use crate::model::{has_project, has_user_id, list_projects, rename_project, StoreModel};
use crate::repository::projects::{
    provision_result, provisioned_project, ProjectGetError, ProjectInsertError, ProjectRepository,
    ProjectUpdateError,
};

verus! {

/// Listing: the join-defined sequence, 500 while the store is unreachable.
pub open spec fn get_projects_outcome(
    m: StoreModel,
    user_id: int,
    r: Result<Vec<Project>, u16>,
) -> bool {
    if m.failing {
        r == Err::<Vec<Project>, u16>(STATUS_INTERNAL_SERVER_ERROR)
    } else {
        r matches Ok(v) && v.deep_view() == list_projects(m.projects, m.grants, user_id)
    }
}

pub fn get_projects<T: ProjectRepository>(repository: &T, user_id: i32) -> (r: Result<
    Vec<Project>,
    u16,
>)
    requires
        repository.project_inv(),
    ensures
        get_projects_outcome(repository.project_view(), user_id as int, r),
{
    match repository.get(user_id) {
        Ok(projects) => Ok(projects),
        Err(ProjectGetError::Missing) => Err(STATUS_NOT_FOUND),
        Err(ProjectGetError::Unknown) => Err(STATUS_INTERNAL_SERVER_ERROR),
    }
}

/// Provisioning: 201 with the created project and the full result committed,
/// or 500 with the store exactly as it was.
pub open spec fn post_projects_outcome(
    pre: StoreModel,
    post: StoreModel,
    name: Seq<char>,
    owner_id: int,
    r: Result<(u16, Project), u16>,
) -> bool {
    if pre.failing || !has_user_id(pre.users, owner_id) || pre.next_id > i32::MAX - 2 {
        r == Err::<(u16, Project), u16>(STATUS_INTERNAL_SERVER_ERROR) && post == pre
    } else {
        r matches Ok((status, p)) && status == STATUS_CREATED && p@ == provisioned_project(
            pre,
            owner_id,
            name,
        ) && post == provision_result(pre, owner_id, name)
    }
}

pub fn post_projects<T: ProjectRepository>(
    repository: &mut T,
    user_id: i32,
    data: &ProjectData,
) -> (r: Result<(u16, Project), u16>)
    requires
        old(repository).project_inv(),
    ensures
        final(repository).project_inv(),
        post_projects_outcome(
            old(repository).project_view(),
            final(repository).project_view(),
            data.name@,
            user_id as int,
            r,
        ),
{
    match repository.insert(data, user_id) {
        Ok(project) => Ok((STATUS_CREATED, project)),
        Err(ProjectInsertError::Unknown) => Err(STATUS_INTERNAL_SERVER_ERROR),
    }
}

/// Rename: 204 and the renamed rows, 500 while the store is unreachable.
pub open spec fn put_projects_metadata_outcome(
    pre: StoreModel,
    post: StoreModel,
    project_id: int,
    name: Seq<char>,
    status: u16,
) -> bool {
    if pre.failing {
        status == STATUS_INTERNAL_SERVER_ERROR && post == pre
    } else {
        status == STATUS_NO_CONTENT && post == StoreModel {
            projects: rename_project(pre.projects, project_id, name),
            ..pre
        }
    }
}

pub fn put_projects_metadata<T: ProjectRepository>(
    repository: &mut T,
    project_id: i32,
    data: &ProjectData,
) -> (status: u16)
    requires
        old(repository).project_inv(),
    ensures
        final(repository).project_inv(),
        put_projects_metadata_outcome(
            old(repository).project_view(),
            final(repository).project_view(),
            project_id as int,
            data.name@,
            status,
        ),
{
    match repository.update(project_id, data) {
        Ok(()) => STATUS_NO_CONTENT,
        Err(ProjectUpdateError::Unknown) => STATUS_INTERNAL_SERVER_ERROR,
    }
}

/// Metadata fetch: the row, 404 when absent, 500 while unreachable.
pub open spec fn get_projects_metadata_outcome(
    m: StoreModel,
    project_id: int,
    r: Result<Project, u16>,
) -> bool {
    if m.failing {
        r == Err::<Project, u16>(STATUS_INTERNAL_SERVER_ERROR)
    } else if !has_project(m.projects, project_id) {
        r == Err::<Project, u16>(STATUS_NOT_FOUND)
    } else {
        r matches Ok(p) && p@.project_id == project_id && m.projects.contains(p@)
    }
}

pub fn get_projects_metadata<T: ProjectRepository>(repository: &T, project_id: i32) -> (r: Result<
    Project,
    u16,
>)
    requires
        repository.project_inv(),
    ensures
        get_projects_metadata_outcome(repository.project_view(), project_id as int, r),
{
    match repository.get_meta(project_id) {
        Ok(project) => Ok(project),
        Err(ProjectGetError::Missing) => Err(STATUS_NOT_FOUND),
        Err(ProjectGetError::Unknown) => Err(STATUS_INTERNAL_SERVER_ERROR),
    }
}

} // verus!
