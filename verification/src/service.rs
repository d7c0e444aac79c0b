//! Services around the stores: password hashing.

pub mod hash;
