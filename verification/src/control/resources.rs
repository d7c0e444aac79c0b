//! Resource handlers: listing and creation behind a project-existence check,
//! and size-limited content overwrite.

use vstd::prelude::*;

use crate::control::{
    STATUS_CONFLICT, STATUS_CREATED, STATUS_INTERNAL_SERVER_ERROR, STATUS_NOT_FOUND,
    STATUS_NO_CONTENT,
};
use crate::domain::{Resource, ResourceMetadata, ResourceRow};
use crate::filesystem::blob_path;
use crate::model::{
    blob_upsert, has_blob, has_project, has_resource, has_resource_named, resources_of_project,
    StoreModel,
};
use crate::repository::projects::{ProjectGetError, ProjectRepository};
use crate::repository::resources::{
    resource_row_of, ResourceGetError, ResourceInsertError,
    ResourceRepository, ResourceUpdateError,
};
use crate::validation::ValidatedJson;

verus! {

/// Listing: 404 for an unknown project, otherwise its resources.
pub open spec fn get_projects_resources_outcome(
    pm: StoreModel,
    rm: StoreModel,
    project_id: int,
    r: Result<Vec<Resource>, u16>,
) -> bool {
    if pm.failing {
        r == Err::<Vec<Resource>, u16>(STATUS_INTERNAL_SERVER_ERROR)
    } else if !has_project(pm.projects, project_id) {
        r == Err::<Vec<Resource>, u16>(STATUS_NOT_FOUND)
    } else if rm.failing {
        r == Err::<Vec<Resource>, u16>(STATUS_INTERNAL_SERVER_ERROR)
    } else {
        r matches Ok(v) && v.deep_view() == resources_of_project(rm.resources, project_id)
    }
}

pub fn get_projects_resources<T: ProjectRepository + ResourceRepository>(
    repository: &T,
    project_id: i32,
) -> (r: Result<Vec<Resource>, u16>)
    requires
        repository.project_inv(),
        repository.resource_inv(),
    ensures
        get_projects_resources_outcome(
            ProjectRepository::project_view(repository),
            ResourceRepository::resource_view(repository),
            project_id as int,
            r,
        ),
{
    match ProjectRepository::get_meta(repository, project_id) {
        Err(ProjectGetError::Missing) => {
            return Err(STATUS_NOT_FOUND);
        },
        Err(ProjectGetError::Unknown) => {
            return Err(STATUS_INTERNAL_SERVER_ERROR);
        },
        Ok(_) => (),
    }
    match ResourceRepository::get(repository, project_id) {
        Ok(resources) => Ok(resources),
        Err(ResourceGetError::Missing) => Err(STATUS_NOT_FOUND),
        Err(ResourceGetError::Unknown) => Err(STATUS_INTERNAL_SERVER_ERROR),
    }
}

/// Creation: 404 for an unknown project, 409 for a name already used inside
/// it, 201 with the created row and its empty blob.
pub open spec fn post_projects_resources_outcome(
    pm: StoreModel,
    rpre: StoreModel,
    rpost: StoreModel,
    project_id: int,
    name: Seq<char>,
    r: Result<(u16, Resource), u16>,
) -> bool {
    if pm.failing {
        r == Err::<(u16, Resource), u16>(STATUS_INTERNAL_SERVER_ERROR) && rpost == rpre
    } else if !has_project(pm.projects, project_id) {
        r == Err::<(u16, Resource), u16>(STATUS_NOT_FOUND) && rpost == rpre
    } else if rpre.failing || rpre.next_id > i32::MAX - 1 {
        r == Err::<(u16, Resource), u16>(STATUS_INTERNAL_SERVER_ERROR) && rpost == rpre
    } else if has_resource_named(rpre.resources, project_id, name) {
        r == Err::<(u16, Resource), u16>(STATUS_CONFLICT) && rpost == rpre
    } else {
        r matches Ok((status, res)) && status == STATUS_CREATED && res@ == (ResourceRow {
            resource_id: rpre.next_id,
            project_id: project_id,
            name: name,
        }) && rpost == StoreModel {
            resources: rpre.resources.push(
                ResourceRow { resource_id: rpre.next_id, project_id: project_id, name: name },
            ),
            blobs: blob_upsert(
                rpre.blobs,
                blob_path(rpre.root, project_id, name),
                Seq::<u8>::empty(),
            ),
            next_id: rpre.next_id + 1,
            ..rpre
        }
    }
}

pub fn post_projects_resources<T: ProjectRepository + ResourceRepository>(
    repository: &mut T,
    project_id: i32,
    data: ValidatedJson<ResourceMetadata>,
) -> (r: Result<(u16, Resource), u16>)
    requires
        old(repository).project_inv(),
        old(repository).resource_inv(),
    ensures
        final(repository).resource_inv(),
        post_projects_resources_outcome(
            ProjectRepository::project_view(old(repository)),
            ResourceRepository::resource_view(old(repository)),
            ResourceRepository::resource_view(final(repository)),
            project_id as int,
            data.0.name@,
            r,
        ),
{
    match ProjectRepository::get_meta(repository, project_id) {
        Err(ProjectGetError::Missing) => {
            return Err(STATUS_NOT_FOUND);
        },
        Err(ProjectGetError::Unknown) => {
            return Err(STATUS_INTERNAL_SERVER_ERROR);
        },
        Ok(_) => (),
    }
    let ValidatedJson(metadata) = data;
    match ResourceRepository::insert(repository, project_id, &metadata) {
        Ok(resource) => Ok((STATUS_CREATED, resource)),
        Err(ResourceInsertError::Duplicate) => Err(STATUS_CONFLICT),
        Err(ResourceInsertError::Unknown) => Err(STATUS_INTERNAL_SERVER_ERROR),
    }
}

/// Content overwrite: 404 when the resource row or its blob is absent, 204
/// with exactly the given bytes stored otherwise.
pub open spec fn put_projects_resources_outcome(
    pre: StoreModel,
    post: StoreModel,
    project_id: int,
    resource_id: int,
    content: Seq<u8>,
    status: u16,
) -> bool {
    if pre.failing {
        status == STATUS_INTERNAL_SERVER_ERROR && post == pre
    } else if !has_resource(pre.resources, project_id, resource_id) {
        status == STATUS_NOT_FOUND && post == pre
    } else {
        let row = resource_row_of(pre.resources, project_id, resource_id);
        let path = blob_path(pre.root, project_id, row.name);
        if !has_blob(pre.blobs, path) {
            status == STATUS_NOT_FOUND && post == pre
        } else {
            status == STATUS_NO_CONTENT && post == StoreModel {
                blobs: blob_upsert(pre.blobs, path, content),
                ..pre
            }
        }
    }
}

pub fn put_projects_resources<T: ResourceRepository>(
    repository: &mut T,
    project_id: i32,
    resource_id: i32,
    body: &[u8],
) -> (status: u16)
    requires
        old(repository).resource_inv(),
    ensures
        final(repository).resource_inv(),
        put_projects_resources_outcome(
            old(repository).resource_view(),
            final(repository).resource_view(),
            project_id as int,
            resource_id as int,
            body@,
            status,
        ),
{
    match repository.update(project_id, resource_id, body) {
        Ok(()) => STATUS_NO_CONTENT,
        Err(ResourceUpdateError::Missing) => STATUS_NOT_FOUND,
        Err(ResourceUpdateError::Unknown) => STATUS_INTERNAL_SERVER_ERROR,
    }
}

} // verus!
