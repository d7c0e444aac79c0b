//! Account handler behaviour against the in-memory store.

use agartex::control::users::{get_users, post_users};
use agartex::domain::{User, UserData};
use agartex::store::MemoryStore;

fn mock_email() -> String {
    String::from("email")
}

fn mock_password() -> String {
    String::from("password")
}

fn mock_user_data() -> UserData {
    UserData {
        email: mock_email(),
        password_hash: mock_password(),
    }
}

fn mock_user() -> User {
    User {
        id: 1,
        email: mock_email(),
        password_hash: mock_password(),
    }
}

#[test]
fn post_users_normal() {
    let mut store = MemoryStore::new(String::from("blobs"));

    assert_eq!(201, post_users(&mut store, mock_user_data()))
}

#[test]
fn post_users_duplicate_error() {
    let mut store = MemoryStore::new(String::from("blobs"));

    assert_eq!(201, post_users(&mut store, mock_user_data()));
    assert_eq!(409, post_users(&mut store, mock_user_data()))
}

#[test]
fn post_users_service_unknown_error() {
    let mut store = MemoryStore::new(String::from("blobs"));
    store.set_failing(true);

    assert_eq!(500, post_users(&mut store, mock_user_data()))
}

#[test]
fn get_users_normal() {
    let mut store = MemoryStore::new(String::from("blobs"));
    assert_eq!(201, post_users(&mut store, mock_user_data()));

    let res = get_users(&store, mock_email().as_str());

    assert!(res.is_ok());
    assert_eq!(mock_user(), res.unwrap())
}

#[test]
fn get_users_missing_error() {
    let store = MemoryStore::new(String::from("blobs"));

    let res = get_users(&store, mock_email().as_str());

    assert!(res.is_err());
    assert_eq!(404, res.unwrap_err())
}

#[test]
fn get_users_unknown_error() {
    let mut store = MemoryStore::new(String::from("blobs"));
    store.set_failing(true);

    let res = get_users(&store, mock_email().as_str());

    assert!(res.is_err());
    assert_eq!(500, res.unwrap_err())
}
