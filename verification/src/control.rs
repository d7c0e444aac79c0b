//! Request handlers: each resolves a store outcome into an HTTP status code
//! following one fixed table — 200 for a read, 201 for a creation, 204 for an
//! update without a body, 404 for `Missing`, 409 for `Duplicate`, 500 for
//! `Unknown`, 501 for unimplemented uploads. The handlers are generic over
//! the repository interfaces and verified against their contracts; transport
//! concerns (routing, headers, body encoding) live outside this crate.

pub mod documents;
pub mod projects;
pub mod resources;
pub mod sessions;
pub mod sharing;
pub mod users;

use vstd::prelude::*;

verus! {

pub const STATUS_OK: u16 = 200;

pub const STATUS_CREATED: u16 = 201;

pub const STATUS_NO_CONTENT: u16 = 204;

pub const STATUS_NOT_FOUND: u16 = 404;

pub const STATUS_CONFLICT: u16 = 409;

pub const STATUS_INTERNAL_SERVER_ERROR: u16 = 500;

pub const STATUS_NOT_IMPLEMENTED: u16 = 501;

} // verus!
