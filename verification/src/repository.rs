//! Repository interfaces. Each trait states, as a relation over the store
//! model, what its operations return and how they change the store; the
//! in-memory store implements and proves every one of them.

pub mod crud;
pub mod documents;
pub mod projects;
pub mod resources;
pub mod sessions;
pub mod sharing;
pub mod users;
