//! The remaining handlers: document and resource endpoints and metadata
//! routes, including their failure mappings.

use agartex::control::documents::{
    get_documents, get_projects_documents, post_document_content, post_documents,
    put_documents_metadata, put_projects_documents,
};
use agartex::control::projects::{get_projects_metadata, post_projects, put_projects_metadata};
use agartex::control::resources::{
    get_projects_resources, post_projects_resources, put_projects_resources,
};
use agartex::control::users::post_users;
use agartex::domain::{DocumentData, Project, ProjectData, ResourceMetadata, UserData};
use agartex::repository::documents::{DocumentInsertError, DocumentRepository};
use agartex::repository::projects::ProjectUpdateError;
use agartex::repository::resources::ResourceGetError;
use agartex::repository::sessions::SessionDeleteError;
use agartex::repository::users::UserGetError;
use agartex::store::MemoryStore;
use agartex::validation::ValidatedJson;

fn store_with_project() -> (MemoryStore, Project) {
    let mut store = MemoryStore::new(String::from("blobs"));
    assert_eq!(
        201,
        post_users(
            &mut store,
            UserData {
                email: String::from("a@x.com"),
                password_hash: String::from("h"),
            },
        )
    );
    let (status, project) = post_projects(
        &mut store,
        1,
        &ProjectData {
            name: String::from("P"),
        },
    )
    .unwrap();
    assert_eq!(201, status);
    (store, project)
}

#[test]
fn document_handlers() {
    let (mut store, project) = store_with_project();

    assert_eq!(
        201,
        post_documents(
            &mut store,
            project.project_id,
            &DocumentData {
                name: String::from("chapter.tex"),
            },
        )
    );
    let documents = get_documents(&store, project.project_id).unwrap();
    assert_eq!(2, documents.len());

    assert_eq!(
        204,
        put_documents_metadata(
            &mut store,
            documents[1].document_id,
            &DocumentData {
                name: String::from("intro.tex"),
            },
        )
    );

    assert_eq!(501, post_document_content(&store, project.project_id, 1));

    // Listing an unknown project is 404; a failing store is 500.
    assert_eq!(Err(404), get_documents(&store, project.project_id + 1));
    store.set_failing(true);
    assert_eq!(Err(500), get_documents(&store, project.project_id));
    assert_eq!(500, put_projects_documents(&mut store, project.project_id, "x"));
    assert_eq!(Err(500), get_projects_documents(&store, project.project_id));
}

#[test]
fn main_document_routes_for_unknown_project() {
    let (mut store, project) = store_with_project();

    assert_eq!(404, put_projects_documents(&mut store, project.project_id + 1, "x"));
    assert_eq!(Err(404), get_projects_documents(&store, project.project_id + 1));
}

#[test]
fn project_metadata_handlers() {
    let (mut store, project) = store_with_project();

    assert_eq!(
        204,
        put_projects_metadata(
            &mut store,
            project.project_id,
            &ProjectData {
                name: String::from("Renamed"),
            },
        )
    );
    assert_eq!(
        "Renamed",
        get_projects_metadata(&store, project.project_id).unwrap().name
    );
    assert_eq!(Err(404), get_projects_metadata(&store, project.project_id + 1));

    store.set_failing(true);
    assert_eq!(
        500,
        put_projects_metadata(
            &mut store,
            project.project_id,
            &ProjectData {
                name: String::from("X"),
            },
        )
    );
    assert_eq!(Err(500), get_projects_metadata(&store, project.project_id));
}

#[test]
fn resource_handlers() {
    let (mut store, project) = store_with_project();

    assert_eq!(
        0,
        get_projects_resources(&store, project.project_id).unwrap().len()
    );
    assert_eq!(Err(404), get_projects_resources(&store, project.project_id + 1));

    let (status, resource) = post_projects_resources(
        &mut store,
        project.project_id,
        ValidatedJson(ResourceMetadata {
            name: String::from("figure.png"),
        }),
    )
    .unwrap();
    assert_eq!(201, status);

    // A duplicate name conflicts; an unknown project is 404.
    assert_eq!(
        Err(409),
        post_projects_resources(
            &mut store,
            project.project_id,
            ValidatedJson(ResourceMetadata {
                name: String::from("figure.png"),
            }),
        )
    );
    assert_eq!(
        Err(404),
        post_projects_resources(
            &mut store,
            project.project_id + 1,
            ValidatedJson(ResourceMetadata {
                name: String::from("other.png"),
            }),
        )
    );

    assert_eq!(
        204,
        put_projects_resources(&mut store, project.project_id, resource.resource_id, &[9])
    );
    assert_eq!(
        404,
        put_projects_resources(&mut store, project.project_id, 999, &[9])
    );
    store.set_failing(true);
    assert_eq!(
        500,
        put_projects_resources(&mut store, project.project_id, resource.resource_id, &[9])
    );
}

#[test]
fn failing_store_error_variants() {
    let (mut store, project) = store_with_project();
    store.set_failing(true);

    assert_eq!(
        Err(DocumentInsertError::Unknown),
        DocumentRepository::insert(
            &mut store,
            project.project_id,
            &DocumentData {
                name: String::from("d.tex"),
            },
        )
    );
    assert_eq!(
        Err(ProjectUpdateError::Unknown),
        agartex::repository::projects::ProjectRepository::update(
            &mut store,
            project.project_id,
            &ProjectData {
                name: String::from("n"),
            },
        )
    );
    assert_eq!(
        Err(ResourceGetError::Unknown),
        agartex::repository::resources::ResourceRepository::get(&store, project.project_id)
    );
    assert_eq!(
        Err(SessionDeleteError::Unknown),
        agartex::repository::sessions::SessionRepository::delete(&mut store, "tok")
    );
    assert_eq!(
        Err(UserGetError::Unknown),
        agartex::repository::users::UserRepository::get_by_email(&store, "a@x.com")
    );
}
