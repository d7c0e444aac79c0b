//! Password hashing behind a small interface: one production implementation
//! backed by bcrypt. What it means for a password to match a hash is opaque
//! — `verifies` names it — but hashing and verification agree on it: a hash
//! just produced verifies its input.

use vstd::prelude::*;

verus! {

pub const DEFAULT_HASH_COST: u32 = 12;

#[derive(Debug, PartialEq, Eq)]
pub enum HashError {
    Unknown,
}

/// Whether bcrypt accepts the password against the encoded hash; a function
/// of the two strings alone (the salt and cost live inside the hash).
pub uninterp spec fn bcrypt_verifies(raw: Seq<char>, hashed: Seq<char>) -> bool;

/// Hashing of credentials.
pub trait HashService {
    /// What it means for a raw credential to match a stored hash.
    spec fn verifies(&self, raw: Seq<char>, hashed: Seq<char>) -> bool;

    /// Produces a salted hash of the input; the result verifies the input.
    fn hash(&self, input: &str) -> (r: Result<String, HashError>)
        ensures
            r matches Ok(h) ==> self.verifies(input@, h@),
    ;

    /// Checks a raw credential against a stored hash.
    fn verify(&self, raw: &str, hashed: &str) -> (r: Result<bool, HashError>)
        ensures
            r matches Ok(b) ==> b == self.verifies(raw@, hashed@),
    ;
}

/// The bcrypt-backed hasher.
#[derive(Debug, Clone, Copy)]
pub struct BcryptHashService {
    pub hash_cost: u32,
}

impl BcryptHashService {
    pub fn new() -> (s: Self)
        ensures
            s.hash_cost == DEFAULT_HASH_COST,
    {
        BcryptHashService { hash_cost: DEFAULT_HASH_COST }
    }
}

/// Relies on bcrypt::hash: a fresh salted hash of the password at the given
/// cost. bcrypt::verify recomputes with the embedded salt and cost, so the
/// result verifies the input; nothing else is assumed of the drawn salt.
#[verifier::external_body]
fn bcrypt_hash_password(input: &str, cost: u32) -> (r: Result<String, HashError>)
    ensures
        r matches Ok(h) ==> bcrypt_verifies(input@, h@),
{
    match bcrypt::hash(input, cost) {
        Ok(h) => Ok(h),
        Err(_) => Err(HashError::Unknown),
    }
}

/// Relies on bcrypt::verify: deterministic in the password and the encoded
/// hash, which carries its own salt and cost.
#[verifier::external_body]
fn bcrypt_check_password(raw: &str, hashed: &str) -> (r: Result<bool, HashError>)
    ensures
        r matches Ok(b) ==> b == bcrypt_verifies(raw@, hashed@),
{
    match bcrypt::verify(raw, hashed) {
        Ok(b) => Ok(b),
        Err(_) => Err(HashError::Unknown),
    }
}

impl HashService for BcryptHashService {
    open spec fn verifies(&self, raw: Seq<char>, hashed: Seq<char>) -> bool {
        bcrypt_verifies(raw, hashed)
    }

    fn hash(&self, input: &str) -> (r: Result<String, HashError>) {
        bcrypt_hash_password(input, self.hash_cost)
    }

    fn verify(&self, raw: &str, hashed: &str) -> (r: Result<bool, HashError>) {
        bcrypt_check_password(raw, hashed)
    }
}

} // verus!
