//! The access pre-check shared by entity repositories: a caller id is
//! accepted when some session row belongs to it.

use vstd::prelude::*;

use crate::domain::CrudInt;
use crate::model::{has_session_for_user, StoreModel};
use crate::store::MemoryStore;

verus! {

#[derive(Debug, PartialEq, Eq)]
pub enum CrudCheckError {
    Missing,
    Unknown,
}

/// The check succeeds exactly when a session row carries the user id.
pub open spec fn crud_check_post(m: StoreModel, id: int, r: Result<CrudInt, CrudCheckError>) -> bool {
    if m.failing {
        r == Err::<CrudInt, CrudCheckError>(CrudCheckError::Unknown)
    } else if !has_session_for_user(m.sessions, id) {
        r == Err::<CrudInt, CrudCheckError>(CrudCheckError::Missing)
    } else {
        r matches Ok(c) && c.id as int == id
    }
}

/// The session-backed caller check.
pub trait CrudRepository {
    spec fn crud_inv(&self) -> bool;

    spec fn crud_view(&self) -> StoreModel;

    /// Accepts a caller id exactly when a session of that user exists.
    fn check(&self, id: i32) -> (r: Result<CrudInt, CrudCheckError>)
        requires
            self.crud_inv(),
        ensures
            crud_check_post(self.crud_view(), id as int, r),
    ;
}

impl CrudRepository for MemoryStore {
    open spec fn crud_inv(&self) -> bool {
        self.wf()
    }

    open spec fn crud_view(&self) -> StoreModel {
        self@
    }

    fn check(&self, id: i32) -> (r: Result<CrudInt, CrudCheckError>) {
        if self.failing {
            return Err(CrudCheckError::Unknown);
        }
        if self.has_session_of_user(id) {
            Ok(CrudInt { id })
        } else {
            Err(CrudCheckError::Missing)
        }
    }
}

} // verus!
