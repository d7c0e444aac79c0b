//! Core of a collaborative document-editing backend: user accounts, session
//! tokens, project provisioning (a project together with its main document and
//! an on-disk placeholder), sharing via invite tokens, and the blob store that
//! holds document and resource content.
//!
//! The repository traits state the store semantics as contracts; `MemoryStore`
//! is the verified in-memory implementation that the proofs and tests run
//! against. Production storage (a relational database, a real filesystem)
//! lives outside this crate and is expected to meet the same contracts.

pub mod control;
pub mod domain;
pub mod extractors;
pub mod filesystem;
pub mod laws;
pub mod model;
pub mod repository;
pub mod service;
pub mod store;
pub mod validation;
