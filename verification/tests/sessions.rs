//! Session handler behaviour against the in-memory store.

use agartex::control::sessions::{delete_sessions, get_sessions, post_sessions};
use agartex::control::users::post_users;
use agartex::domain::{Session, SessionData, User, UserData};
use agartex::store::MemoryStore;

fn mock_email() -> String {
    String::from("email")
}

fn mock_password() -> String {
    String::from("password")
}

fn mock_user() -> User {
    User {
        id: 1,
        email: mock_email(),
        password_hash: mock_password(),
    }
}

fn mock_session_id() -> String {
    String::from_iter(std::iter::repeat('1').take(64))
}

fn mock_expires() -> i64 {
    1_700_000_000
}

fn mock_session_data() -> SessionData {
    SessionData {
        id: mock_session_id(),
        user_id: 1,
        expires: mock_expires(),
    }
}

fn mock_session() -> Session {
    Session {
        id: mock_session_id(),
        user: mock_user(),
        expires: mock_expires(),
    }
}

fn store_with_user() -> MemoryStore {
    let mut store = MemoryStore::new(String::from("blobs"));
    let status = post_users(
        &mut store,
        UserData {
            email: mock_email(),
            password_hash: mock_password(),
        },
    );
    assert_eq!(201, status);
    store
}

#[test]
fn post_sessions_normal() {
    let mut store = store_with_user();

    assert_eq!(201, post_sessions(&mut store, &mock_session_data()))
}

#[test]
fn post_sessions_duplicate_error() {
    let mut store = store_with_user();

    let session_data = mock_session_data();

    assert_eq!(201, post_sessions(&mut store, &session_data));
    assert_eq!(409, post_sessions(&mut store, &session_data))
}

#[test]
fn post_sessions_service_unknown_error() {
    let mut store = store_with_user();
    store.set_failing(true);

    let session_data = mock_session_data();

    assert_eq!(500, post_sessions(&mut store, &session_data))
}

#[test]
fn get_sessions_normal() {
    let mut store = store_with_user();
    assert_eq!(201, post_sessions(&mut store, &mock_session_data()));

    let res = get_sessions(&store, mock_session_id().as_str());

    assert!(res.is_ok());
    assert_eq!(mock_session(), res.unwrap())
}

#[test]
fn get_sessions_missing_error() {
    let store = MemoryStore::new(String::from("blobs"));

    let res = get_sessions(&store, mock_session_id().as_str());

    assert!(res.is_err());
    assert_eq!(404, res.unwrap_err())
}

#[test]
fn get_sessions_unknown_error() {
    let mut store = store_with_user();
    store.set_failing(true);

    let res = get_sessions(&store, mock_session_id().as_str());

    assert!(res.is_err());
    assert_eq!(500, res.unwrap_err())
}

#[test]
fn delete_sessions_normal() {
    let mut store = store_with_user();
    assert_eq!(201, post_sessions(&mut store, &mock_session_data()));

    assert_eq!(204, delete_sessions(&mut store, mock_session_id().as_str()))
}

#[test]
fn delete_sessions_unknown_error() {
    let mut store = store_with_user();
    store.set_failing(true);

    assert_eq!(500, delete_sessions(&mut store, mock_session_id().as_str()))
}
