//! End-to-end scenarios: registration, login, provisioning, reading the main
//! document, sharing, and the session lifecycle.

use agartex::control::documents::{get_documents, get_projects_documents, put_projects_documents};
use agartex::control::projects::{get_projects, post_projects};
use agartex::control::sessions::{delete_sessions, get_sessions, post_sessions};
use agartex::control::sharing::{post_projects_sharing, put_projects_sharing};
use agartex::control::users::{get_users, post_users};
use agartex::domain::{ProjectData, SessionData, UserData};
use agartex::store::MemoryStore;

fn token_a() -> String {
    String::from_iter(std::iter::repeat('a').take(64))
}

#[test]
fn end_to_end_provisioning() {
    let mut store = MemoryStore::new(String::from("blobs"));
    store.set_clock(1_700_000_000);

    // Register user A.
    let status = post_users(
        &mut store,
        UserData {
            email: String::from("a@x.com"),
            password_hash: String::from("hash-a"),
        },
    );
    assert_eq!(201, status);
    let user = get_users(&store, "a@x.com").unwrap();

    // Log in: create a session and resolve it.
    let status = post_sessions(
        &mut store,
        &SessionData {
            id: token_a(),
            user_id: user.id,
            expires: 1_700_000_600,
        },
    );
    assert_eq!(201, status);
    let principal = get_sessions(&store, token_a().as_str()).unwrap();
    assert_eq!(user, principal.user);

    // Create the project.
    let (status, project) = post_projects(
        &mut store,
        principal.user.id,
        &ProjectData {
            name: String::from("Thesis"),
        },
    )
    .unwrap();
    assert_eq!(201, status);
    assert_eq!("Thesis", project.name);
    assert_eq!(principal.user.id, project.owner);
    assert_eq!(1_700_000_000, project.created_at);

    // Its single document is the empty main.tex.
    let documents = get_documents(&store, project.project_id).unwrap();
    assert_eq!(1, documents.len());
    assert_eq!("main.tex", documents[0].name);
    assert_eq!(project.main_document_id, documents[0].document_id);
    assert_eq!(project.project_id, documents[0].project_id);

    let content = get_projects_documents(&store, project.project_id).unwrap();
    assert_eq!("", content);

    // Overwrite the main document and read it back.
    assert_eq!(
        204,
        put_projects_documents(&mut store, project.project_id, "\\documentclass{article}")
    );
    let content = get_projects_documents(&store, project.project_id).unwrap();
    assert_eq!("\\documentclass{article}", content);
}

#[test]
fn share_token_round_trip() {
    let mut store = MemoryStore::new(String::from("blobs"));

    assert_eq!(
        201,
        post_users(
            &mut store,
            UserData {
                email: String::from("owner@x.com"),
                password_hash: String::from("h1"),
            },
        )
    );
    assert_eq!(
        201,
        post_users(
            &mut store,
            UserData {
                email: String::from("friend@x.com"),
                password_hash: String::from("h2"),
            },
        )
    );
    let owner = get_users(&store, "owner@x.com").unwrap();
    let friend = get_users(&store, "friend@x.com").unwrap();

    let (_, project) = post_projects(
        &mut store,
        owner.id,
        &ProjectData {
            name: String::from("Shared"),
        },
    )
    .unwrap();

    // A non-owner cannot mint a token.
    assert_eq!(
        Err(500),
        put_projects_sharing(&mut store, friend.id, project.project_id)
    );

    // The owner mints one; it is 64 alphanumeric characters.
    let token = put_projects_sharing(&mut store, owner.id, project.project_id).unwrap();
    assert_eq!(64, token.len());
    assert!(token.chars().all(|c| c.is_ascii_alphanumeric()));

    // Before redemption the friend sees nothing.
    assert_eq!(0, get_projects(&store, friend.id).unwrap().len());

    // Redeeming grants access.
    assert_eq!(201, post_projects_sharing(&mut store, friend.id, token.clone()));
    let listing = get_projects(&store, friend.id).unwrap();
    assert!(listing.iter().any(|p| p.project_id == project.project_id));
    assert_eq!(1, listing.len());

    // Redeeming the same token again does not error; the listing then joins
    // on both grant rows.
    assert_eq!(201, post_projects_sharing(&mut store, friend.id, token.clone()));
    let listing = get_projects(&store, friend.id).unwrap();
    assert!(listing.iter().any(|p| p.project_id == project.project_id));
    assert_eq!(2, listing.len());

    // The owner still sees the project exactly once.
    let owner_listing = get_projects(&store, owner.id).unwrap();
    assert_eq!(1, owner_listing.len());

    // An unknown token cannot be redeemed.
    assert_eq!(500, post_projects_sharing(&mut store, friend.id, token_a()));
}

#[test]
fn delete_session_twice_never_errors() {
    let mut store = MemoryStore::new(String::from("blobs"));
    assert_eq!(
        201,
        post_sessions(
            &mut store,
            &SessionData {
                id: token_a(),
                user_id: 7,
                expires: 10,
            },
        )
    );

    assert_eq!(204, delete_sessions(&mut store, token_a().as_str()));
    assert_eq!(204, delete_sessions(&mut store, token_a().as_str()));
}

#[test]
fn get_session_after_create_and_delete_is_missing() {
    let mut store = MemoryStore::new(String::from("blobs"));

    // Never inserted: missing.
    assert_eq!(Err(404), get_sessions(&store, token_a().as_str()));

    assert_eq!(
        201,
        post_sessions(
            &mut store,
            &SessionData {
                id: token_a(),
                user_id: 7,
                expires: 10,
            },
        )
    );
    assert_eq!(204, delete_sessions(&mut store, token_a().as_str()));

    // Inserted then deleted: missing again.
    assert_eq!(Err(404), get_sessions(&store, token_a().as_str()));
}

#[test]
fn duplicate_session_leaves_original_unmodified() {
    let mut store = MemoryStore::new(String::from("blobs"));
    assert_eq!(
        201,
        post_users(
            &mut store,
            UserData {
                email: String::from("a@x.com"),
                password_hash: String::from("h"),
            },
        )
    );
    assert_eq!(
        201,
        post_sessions(
            &mut store,
            &SessionData {
                id: token_a(),
                user_id: 1,
                expires: 1000,
            },
        )
    );

    // Same token, different expiry: refused, and the original stays.
    assert_eq!(
        409,
        post_sessions(
            &mut store,
            &SessionData {
                id: token_a(),
                user_id: 1,
                expires: 9999,
            },
        )
    );
    let session = get_sessions(&store, token_a().as_str()).unwrap();
    assert_eq!(1000, session.expires);
}
