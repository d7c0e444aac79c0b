//! The in-memory store's repository operations: blob-store boundaries,
//! provisioning atomicity, documents, resources, and the caller check.

use agartex::domain::{DocumentData, ProjectData, ResourceMetadata, SessionData, UserData};
use agartex::filesystem::{
    get_document_path, get_resource_path, FileReadError, FileWriteError,
};
use agartex::repository::crud::{CrudCheckError, CrudRepository};
use agartex::repository::documents::{
    DocumentGetError, DocumentRepository, DocumentUpdateError,
};
use agartex::repository::projects::{ProjectGetError, ProjectInsertError, ProjectRepository};
use agartex::repository::resources::{
    ResourceGetError, ResourceInsertError, ResourceRepository, ResourceUpdateError,
};
use agartex::repository::sessions::SessionRepository;
use agartex::repository::users::UserRepository;
use agartex::store::MemoryStore;

fn store_with_user() -> MemoryStore {
    let mut store = MemoryStore::new(String::from("blobs"));
    UserRepository::insert(
        &mut store,
        UserData {
            email: String::from("a@x.com"),
            password_hash: String::from("h"),
        },
    )
    .unwrap();
    store
}

#[test]
fn write_file_without_create_on_absent_path_is_missing() {
    let mut store = MemoryStore::new(String::from("blobs"));

    let r = store.write_file("blobs/1/main.tex", b"content", false);
    assert_eq!(Err(FileWriteError::Missing), r);

    // Nothing was written.
    assert_eq!(Err(FileReadError::Missing), store.read_file("blobs/1/main.tex"));
}

#[test]
fn write_file_with_create_stores_exactly_the_content() {
    let mut store = MemoryStore::new(String::from("blobs"));

    assert_eq!(Ok(()), store.write_file("blobs/1/main.tex", b"alpha", true));
    assert_eq!(b"alpha".to_vec(), store.read_file("blobs/1/main.tex").unwrap());

    // Overwrite without create succeeds once the path exists.
    assert_eq!(Ok(()), store.write_file("blobs/1/main.tex", b"beta", false));
    assert_eq!(b"beta".to_vec(), store.read_file("blobs/1/main.tex").unwrap());
}

#[test]
fn blob_store_failing_is_unknown() {
    let mut store = MemoryStore::new(String::from("blobs"));
    store.set_failing(true);

    assert_eq!(Err(FileWriteError::Unknown), store.write_file("p", b"x", true));
    assert_eq!(Err(FileReadError::Unknown), store.read_file("p"));
}

#[test]
fn provisioning_creates_linked_document_and_empty_blob() {
    let mut store = store_with_user();

    let project = ProjectRepository::insert(
        &mut store,
        &ProjectData {
            name: String::from("Thesis"),
        },
        1,
    )
    .unwrap();

    let document =
        DocumentRepository::get_meta(&store, project.project_id, project.main_document_id)
            .unwrap();
    assert_eq!("main.tex", document.name);
    assert_eq!(project.project_id, document.project_id);

    let path = get_document_path("blobs", &document);
    assert_eq!(Ok(Vec::new()), store.read_file(path.as_str()));
}

#[test]
fn provisioning_for_unknown_owner_changes_nothing() {
    let mut store = store_with_user();

    let r = ProjectRepository::insert(
        &mut store,
        &ProjectData {
            name: String::from("Thesis"),
        },
        99,
    );
    assert_eq!(Err(ProjectInsertError::Unknown), r);
    assert_eq!(0, ProjectRepository::get(&store, 1).unwrap().len());
}

#[test]
fn project_rename_and_metadata() {
    let mut store = store_with_user();
    let project = ProjectRepository::insert(
        &mut store,
        &ProjectData {
            name: String::from("Before"),
        },
        1,
    )
    .unwrap();

    assert_eq!(
        Err(ProjectGetError::Missing),
        ProjectRepository::get_meta(&store, project.project_id + 1)
    );

    ProjectRepository::update(
        &mut store,
        project.project_id,
        &ProjectData {
            name: String::from("After"),
        },
    )
    .unwrap();
    let renamed = ProjectRepository::get_meta(&store, project.project_id).unwrap();
    assert_eq!("After", renamed.name);

    store.set_failing(true);
    assert!(matches!(
        ProjectRepository::get_meta(&store, project.project_id),
        Err(ProjectGetError::Unknown)
    ));
}

#[test]
fn document_listing_and_rename() {
    let mut store = store_with_user();
    let project = ProjectRepository::insert(
        &mut store,
        &ProjectData {
            name: String::from("P"),
        },
        1,
    )
    .unwrap();

    // A project id without documents lists as missing.
    assert_eq!(
        Err(DocumentGetError::Missing),
        DocumentRepository::get(&store, project.project_id + 1)
    );

    DocumentRepository::insert(
        &mut store,
        project.project_id,
        &DocumentData {
            name: String::from("chapter.tex"),
        },
    )
    .unwrap();
    let documents = DocumentRepository::get(&store, project.project_id).unwrap();
    assert_eq!(2, documents.len());
    assert_eq!("main.tex", documents[0].name);
    assert_eq!("chapter.tex", documents[1].name);

    DocumentRepository::update(
        &mut store,
        documents[1].document_id,
        &DocumentData {
            name: String::from("intro.tex"),
        },
    )
    .unwrap();
    let documents = DocumentRepository::get(&store, project.project_id).unwrap();
    assert_eq!("intro.tex", documents[1].name);
}

#[test]
fn document_write_to_unprovisioned_path_is_missing() {
    let mut store = store_with_user();
    let project = ProjectRepository::insert(
        &mut store,
        &ProjectData {
            name: String::from("P"),
        },
        1,
    )
    .unwrap();
    let mut document =
        DocumentRepository::get_meta(&store, project.project_id, project.main_document_id)
            .unwrap();

    // Renaming the row does not move the blob: writing at the new derived
    // path is refused.
    DocumentRepository::update(
        &mut store,
        document.document_id,
        &DocumentData {
            name: String::from("renamed.tex"),
        },
    )
    .unwrap();
    document.name = String::from("renamed.tex");
    assert_eq!(
        Err(DocumentUpdateError::Missing),
        DocumentRepository::write_file(&mut store, &document, "text")
    );
}

#[test]
fn resource_lifecycle() {
    let mut store = store_with_user();
    let project = ProjectRepository::insert(
        &mut store,
        &ProjectData {
            name: String::from("P"),
        },
        1,
    )
    .unwrap();

    // No resources yet; an empty list is not an error.
    assert_eq!(
        0,
        ResourceRepository::get(&store, project.project_id).unwrap().len()
    );

    let resource = ResourceRepository::insert(
        &mut store,
        project.project_id,
        &ResourceMetadata {
            name: String::from("figure.png"),
        },
    )
    .unwrap();
    assert_eq!("figure.png", resource.name);

    // Same name in the same project: duplicate.
    assert_eq!(
        Err(ResourceInsertError::Duplicate),
        ResourceRepository::insert(
            &mut store,
            project.project_id,
            &ResourceMetadata {
                name: String::from("figure.png"),
            },
        )
    );

    // Content lands at the derived path.
    ResourceRepository::update(
        &mut store,
        project.project_id,
        resource.resource_id,
        &[1, 2, 3],
    )
    .unwrap();
    let path = get_resource_path("blobs", &resource);
    assert_eq!(vec![1, 2, 3], store.read_file(path.as_str()).unwrap());

    // Unknown resource id: missing.
    assert_eq!(
        Err(ResourceUpdateError::Missing),
        ResourceRepository::update(&mut store, project.project_id, 999, &[1])
    );
    assert_eq!(
        Err(ResourceGetError::Missing),
        ResourceRepository::get_meta(&store, project.project_id, 999)
    );
    assert_eq!(
        resource,
        ResourceRepository::get_meta(&store, project.project_id, resource.resource_id).unwrap()
    );
}

#[test]
fn crud_check_requires_a_session() {
    let mut store = store_with_user();

    assert_eq!(Err(CrudCheckError::Missing), CrudRepository::check(&store, 1));

    SessionRepository::insert(
        &mut store,
        &SessionData {
            id: String::from("tok"),
            user_id: 1,
            expires: 5,
        },
    )
    .unwrap();
    assert_eq!(1, CrudRepository::check(&store, 1).unwrap().id);

    store.set_failing(true);
    assert_eq!(Err(CrudCheckError::Unknown), CrudRepository::check(&store, 1));
}
