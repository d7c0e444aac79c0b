//! The bcrypt-backed hash service, exercised against the real bcrypt crate.

use agartex::service::hash::{BcryptHashService, HashError, HashService, DEFAULT_HASH_COST};

#[test]
fn hash_then_verify_round_trip() {
    let service = BcryptHashService::new();
    assert_eq!(DEFAULT_HASH_COST, service.hash_cost);

    let hashed = service.hash("hunter2").unwrap();
    assert_eq!(60, hashed.len());
    assert_eq!(Ok(true), service.verify("hunter2", hashed.as_str()));
    assert_eq!(Ok(false), service.verify("wrong", hashed.as_str()));
}

#[test]
fn verify_malformed_hash_is_unknown() {
    let service = BcryptHashService::new();
    assert_eq!(
        Err(HashError::Unknown),
        service.verify("pw", "not-a-bcrypt-hash")
    );
}

#[test]
fn invalid_cost_is_unknown() {
    let service = BcryptHashService { hash_cost: 2 };
    assert_eq!(Err(HashError::Unknown), service.hash("pw"));
}
