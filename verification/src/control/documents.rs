//! Document handlers: listing, creation, rename, and the content endpoints
//! that operate on a project's main document.

use vstd::prelude::*;
use vstd::utf8::{decode_utf8, encode_utf8, valid_utf8};

use crate::control::{
    STATUS_CREATED, STATUS_INTERNAL_SERVER_ERROR, STATUS_NOT_FOUND, STATUS_NOT_IMPLEMENTED,
    STATUS_NO_CONTENT,
};
use crate::domain::{Document, DocumentData, DocumentRow, ProjectRow};
use crate::filesystem::blob_path;
use crate::model::{
    blob_at, blob_upsert, documents_of_project, has_blob, has_document, has_project,
    rename_document, StoreModel,
};
use crate::repository::documents::{
    document_insert_post, DocumentGetError, DocumentInsertError, DocumentRepository,
    DocumentUpdateError,
};
use crate::repository::projects::{ProjectGetError, ProjectRepository};

verus! {

/// Listing: the project's documents, 404 when it has none, 500 while the
/// store is unreachable.
pub open spec fn get_documents_outcome(
    m: StoreModel,
    project_id: int,
    r: Result<Vec<Document>, u16>,
) -> bool {
    if m.failing {
        r == Err::<Vec<Document>, u16>(STATUS_INTERNAL_SERVER_ERROR)
    } else if documents_of_project(m.documents, project_id).len() == 0 {
        r == Err::<Vec<Document>, u16>(STATUS_NOT_FOUND)
    } else {
        r matches Ok(v) && v.deep_view() == documents_of_project(m.documents, project_id)
    }
}

pub fn get_documents<T: DocumentRepository>(repository: &T, project_id: i32) -> (r: Result<
    Vec<Document>,
    u16,
>)
    requires
        repository.document_inv(),
    ensures
        get_documents_outcome(repository.document_view(), project_id as int, r),
{
    match repository.get(project_id) {
        Ok(documents) => Ok(documents),
        Err(DocumentGetError::Missing) => Err(STATUS_NOT_FOUND),
        Err(DocumentGetError::Unknown) => Err(STATUS_INTERNAL_SERVER_ERROR),
    }
}

/// Creation: 201 and the appended row with its empty blob, 500 otherwise.
pub open spec fn post_documents_outcome(
    pre: StoreModel,
    post: StoreModel,
    project_id: int,
    name: Seq<char>,
    status: u16,
) -> bool {
    if pre.failing || pre.next_id > i32::MAX - 1 {
        status == STATUS_INTERNAL_SERVER_ERROR && post == pre
    } else {
        status == STATUS_CREATED && document_insert_post(
            pre,
            post,
            project_id,
            name,
            Ok::<(), DocumentInsertError>(()),
        )
    }
}

pub fn post_documents<T: DocumentRepository>(
    repository: &mut T,
    project_id: i32,
    data: &DocumentData,
) -> (status: u16)
    requires
        old(repository).document_inv(),
    ensures
        final(repository).document_inv(),
        post_documents_outcome(
            old(repository).document_view(),
            final(repository).document_view(),
            project_id as int,
            data.name@,
            status,
        ),
{
    match repository.insert(project_id, data) {
        Ok(()) => STATUS_CREATED,
        Err(DocumentInsertError::Unknown) => STATUS_INTERNAL_SERVER_ERROR,
    }
}

/// Rename: 204 and the renamed rows, 500 while the store is unreachable.
pub open spec fn put_documents_metadata_outcome(
    pre: StoreModel,
    post: StoreModel,
    document_id: int,
    name: Seq<char>,
    status: u16,
) -> bool {
    if pre.failing {
        status == STATUS_INTERNAL_SERVER_ERROR && post == pre
    } else {
        status == STATUS_NO_CONTENT && post == StoreModel {
            documents: rename_document(pre.documents, document_id, name),
            ..pre
        }
    }
}

pub fn put_documents_metadata<T: DocumentRepository>(
    repository: &mut T,
    document_id: i32,
    data: &DocumentData,
) -> (status: u16)
    requires
        old(repository).document_inv(),
    ensures
        final(repository).document_inv(),
        put_documents_metadata_outcome(
            old(repository).document_view(),
            final(repository).document_view(),
            document_id as int,
            data.name@,
            status,
        ),
{
    match repository.update(document_id, data) {
        Ok(()) => STATUS_NO_CONTENT,
        Err(DocumentUpdateError::Missing) => STATUS_NOT_FOUND,
        Err(DocumentUpdateError::Unknown) => STATUS_INTERNAL_SERVER_ERROR,
    }
}

/// Direct content upload is not offered.
pub fn post_document_content<T: DocumentRepository>(
    _repository: &T,
    _project_id: i32,
    _document_id: i32,
) -> (status: u16)
    ensures
        status == STATUS_NOT_IMPLEMENTED,
{
    STATUS_NOT_IMPLEMENTED
}

/// The write phase against the main document `md` of the project.
pub open spec fn main_document_write_phase(
    dpre: StoreModel,
    dpost: StoreModel,
    project_id: int,
    md: int,
    content: Seq<char>,
    status: u16,
) -> bool {
    if dpre.failing {
        status == STATUS_INTERNAL_SERVER_ERROR && dpost == dpre
    } else if !has_document(dpre.documents, project_id, md) {
        status == STATUS_NOT_FOUND && dpost == dpre
    } else {
        exists|d: DocumentRow|
            #![auto]
            dpre.documents.contains(d) && d.project_id == project_id && d.document_id == md && (
            if !has_blob(dpre.blobs, blob_path(dpre.root, project_id, d.name)) {
                status == STATUS_NOT_FOUND && dpost == dpre
            } else {
                status == STATUS_NO_CONTENT && dpost == StoreModel {
                    blobs: blob_upsert(
                        dpre.blobs,
                        blob_path(dpre.root, project_id, d.name),
                        encode_utf8(content),
                    ),
                    ..dpre
                }
            })
    }
}

/// Overwriting the main document's text: resolves the project, then its main
/// document, then writes; each missing link is 404, and only a successful
/// write changes the store.
pub open spec fn put_projects_documents_outcome(
    pm: StoreModel,
    dpre: StoreModel,
    dpost: StoreModel,
    project_id: int,
    content: Seq<char>,
    status: u16,
) -> bool {
    if pm.failing {
        status == STATUS_INTERNAL_SERVER_ERROR && dpost == dpre
    } else if !has_project(pm.projects, project_id) {
        status == STATUS_NOT_FOUND && dpost == dpre
    } else {
        exists|p: ProjectRow|
            #![auto]
            pm.projects.contains(p) && p.project_id == project_id && main_document_write_phase(
                dpre,
                dpost,
                project_id,
                p.main_document_id,
                content,
                status,
            )
    }
}

pub fn put_projects_documents<T: ProjectRepository + DocumentRepository>(
    repository: &mut T,
    project_id: i32,
    content: &str,
) -> (status: u16)
    requires
        old(repository).project_inv(),
        old(repository).document_inv(),
    ensures
        final(repository).document_inv(),
        put_projects_documents_outcome(
            ProjectRepository::project_view(old(repository)),
            DocumentRepository::document_view(old(repository)),
            DocumentRepository::document_view(final(repository)),
            project_id as int,
            content@,
            status,
        ),
{
    let project = match ProjectRepository::get_meta(repository, project_id) {
        Ok(project) => project,
        Err(ProjectGetError::Missing) => {
            return STATUS_NOT_FOUND;
        },
        Err(ProjectGetError::Unknown) => {
            return STATUS_INTERNAL_SERVER_ERROR;
        },
    };
    let document = match DocumentRepository::get_meta(
        repository,
        project_id,
        project.main_document_id,
    ) {
        Ok(document) => document,
        Err(DocumentGetError::Missing) => {
            return STATUS_NOT_FOUND;
        },
        Err(DocumentGetError::Unknown) => {
            return STATUS_INTERNAL_SERVER_ERROR;
        },
    };
    match DocumentRepository::write_file(repository, &document, content) {
        Ok(()) => STATUS_NO_CONTENT,
        Err(DocumentUpdateError::Missing) => STATUS_NOT_FOUND,
        Err(DocumentUpdateError::Unknown) => STATUS_INTERNAL_SERVER_ERROR,
    }
}

/// The read phase against the main document `md` of the project.
pub open spec fn main_document_read_phase(
    dm: StoreModel,
    project_id: int,
    md: int,
    r: Result<String, u16>,
) -> bool {
    if dm.failing {
        r == Err::<String, u16>(STATUS_INTERNAL_SERVER_ERROR)
    } else if !has_document(dm.documents, project_id, md) {
        r == Err::<String, u16>(STATUS_NOT_FOUND)
    } else {
        exists|d: DocumentRow|
            #![auto]
            dm.documents.contains(d) && d.project_id == project_id && d.document_id == md && (
            match blob_at(dm.blobs, blob_path(dm.root, project_id, d.name)) {
                None => r == Err::<String, u16>(STATUS_NOT_FOUND),
                Some(bytes) => if valid_utf8(bytes) {
                    r matches Ok(s) && s@ == decode_utf8(bytes)
                } else {
                    r == Err::<String, u16>(STATUS_INTERNAL_SERVER_ERROR)
                },
            })
    }
}

/// Reading the main document's text: resolves the project, then its main
/// document, then reads the blob at the derived path.
pub open spec fn get_projects_documents_outcome(
    pm: StoreModel,
    dm: StoreModel,
    project_id: int,
    r: Result<String, u16>,
) -> bool {
    if pm.failing {
        r == Err::<String, u16>(STATUS_INTERNAL_SERVER_ERROR)
    } else if !has_project(pm.projects, project_id) {
        r == Err::<String, u16>(STATUS_NOT_FOUND)
    } else {
        exists|p: ProjectRow|
            #![auto]
            pm.projects.contains(p) && p.project_id == project_id && main_document_read_phase(
                dm,
                project_id,
                p.main_document_id,
                r,
            )
    }
}

pub fn get_projects_documents<T: ProjectRepository + DocumentRepository>(
    repository: &T,
    project_id: i32,
) -> (r: Result<String, u16>)
    requires
        repository.project_inv(),
        repository.document_inv(),
    ensures
        get_projects_documents_outcome(
            ProjectRepository::project_view(repository),
            DocumentRepository::document_view(repository),
            project_id as int,
            r,
        ),
{
    let project = match ProjectRepository::get_meta(repository, project_id) {
        Ok(project) => project,
        Err(ProjectGetError::Missing) => {
            return Err(STATUS_NOT_FOUND);
        },
        Err(ProjectGetError::Unknown) => {
            return Err(STATUS_INTERNAL_SERVER_ERROR);
        },
    };
    let document = match DocumentRepository::get_meta(
        repository,
        project_id,
        project.main_document_id,
    ) {
        Ok(document) => document,
        Err(DocumentGetError::Missing) => {
            return Err(STATUS_NOT_FOUND);
        },
        Err(DocumentGetError::Unknown) => {
            return Err(STATUS_INTERNAL_SERVER_ERROR);
        },
    };
    match DocumentRepository::read_file(repository, &document) {
        Ok(content) => Ok(content),
        Err(DocumentGetError::Missing) => Err(STATUS_NOT_FOUND),
        Err(DocumentGetError::Unknown) => Err(STATUS_INTERNAL_SERVER_ERROR),
    }
}

} // verus!
