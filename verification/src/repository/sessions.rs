//! Sessions: inserting a token bound to a user, resolving a token to the
//! authenticated user (a join with the user table), and idempotent deletion.

use vstd::prelude::*;

use crate::domain::{Session, SessionData, SessionJoined, SessionRow};
use crate::model::{has_session, session_join_ok, without_session, StoreModel};
use crate::store::MemoryStore;

verus! {

#[derive(Debug, PartialEq, Eq)]
pub enum SessionGetError {
    Missing,
    Unknown,
}

#[derive(Debug, PartialEq, Eq)]
pub enum SessionDeleteError {
    Unknown,
}

#[derive(Debug, PartialEq, Eq)]
pub enum SessionInsertError {
    Duplicate,
    Unknown,
}

/// Insertion refuses a token that is already present with `Duplicate` and
/// leaves the store unchanged; otherwise the row is appended.
pub open spec fn session_insert_post(
    pre: StoreModel,
    post: StoreModel,
    s: SessionRow,
    r: Result<(), SessionInsertError>,
) -> bool {
    if pre.failing {
        r == Err::<(), SessionInsertError>(SessionInsertError::Unknown) && post == pre
    } else if has_session(pre.sessions, s.id) {
        r == Err::<(), SessionInsertError>(SessionInsertError::Duplicate) && post == pre
    } else {
        r == Ok::<(), SessionInsertError>(()) && post == StoreModel {
            sessions: pre.sessions.push(s),
            ..pre
        }
    }
}

/// A successful lookup returns the session row joined with its user.
pub open spec fn session_get_ok(m: StoreModel, token: Seq<char>, s: SessionJoined) -> bool {
    exists|i: int|
        0 <= i < m.sessions.len() && #[trigger] m.sessions[i].id == token && s.id == token
            && s.expires == m.sessions[i].expires && s.user.id == m.sessions[i].user_id
            && m.users.contains(s.user)
}

/// Lookup: `Missing` when no session row carries the token or the referenced
/// user is gone; otherwise the joined principal. Expiry is advisory and not
/// checked here: callers compare `expires` with their clock.
pub open spec fn session_get_post(
    m: StoreModel,
    token: Seq<char>,
    r: Result<Session, SessionGetError>,
) -> bool {
    if m.failing {
        r == Err::<Session, SessionGetError>(SessionGetError::Unknown)
    } else if !session_join_ok(m, token) {
        r == Err::<Session, SessionGetError>(SessionGetError::Missing)
    } else {
        r matches Ok(s) && session_get_ok(m, token, s@)
    }
}

/// Deletion always succeeds on a reachable store — absence of the row is not
/// an error — and removes every row carrying the token.
pub open spec fn session_delete_post(
    pre: StoreModel,
    post: StoreModel,
    token: Seq<char>,
    r: Result<(), SessionDeleteError>,
) -> bool {
    if pre.failing {
        r == Err::<(), SessionDeleteError>(SessionDeleteError::Unknown) && post == pre
    } else {
        r == Ok::<(), SessionDeleteError>(()) && post == StoreModel {
            sessions: without_session(pre.sessions, token),
            ..pre
        }
    }
}

/// Store operations on sessions.
pub trait SessionRepository {
    spec fn session_inv(&self) -> bool;

    spec fn session_view(&self) -> StoreModel;

    /// Inserts a session row; an existing identical token is a `Duplicate`.
    fn insert(&mut self, session: &SessionData) -> (r: Result<(), SessionInsertError>)
        requires
            old(self).session_inv(),
        ensures
            final(self).session_inv(),
            session_insert_post(
                old(self).session_view(),
                final(self).session_view(),
                session@,
                r,
            ),
    ;

    /// Resolves a token to the session joined with its user.
    fn get(&self, id: &str) -> (r: Result<Session, SessionGetError>)
        requires
            self.session_inv(),
        ensures
            session_get_post(self.session_view(), id@, r),
    ;

    /// Deletes the session carrying the token; absence is not an error.
    fn delete(&mut self, id: &str) -> (r: Result<(), SessionDeleteError>)
        requires
            old(self).session_inv(),
        ensures
            final(self).session_inv(),
            session_delete_post(old(self).session_view(), final(self).session_view(), id@, r),
    ;
}

impl SessionRepository for MemoryStore {
    open spec fn session_inv(&self) -> bool {
        self.wf()
    }

    open spec fn session_view(&self) -> StoreModel {
        self@
    }

    fn insert(&mut self, session: &SessionData) -> (r: Result<(), SessionInsertError>) {
        if self.failing {
            return Err(SessionInsertError::Unknown);
        }
        let present = self.find_session(session.id.as_str());
        if present.is_some() {
            proof {
                assert(has_session(self@.sessions, session@.id));
            }
            return Err(SessionInsertError::Duplicate);
        }
        let ghost pre = self@;
        let row = session.clone();
        self.sessions.push(row);
        proof {
            assert(self@.sessions =~= pre.sessions.push(session@));
            assert(self@ =~= (StoreModel { sessions: pre.sessions.push(session@), ..pre }));
            assert forall|i: int, j: int| 0 <= i < j < self@.sessions.len() implies
                self@.sessions[i].id != self@.sessions[j].id by {
                if j == self@.sessions.len() - 1 {
                    assert(!has_session(pre.sessions, session@.id));
                    assert(pre.sessions[i].id != session@.id);
                }
            }
        }
        Ok(())
    }

    fn get(&self, id: &str) -> (r: Result<Session, SessionGetError>) {
        if self.failing {
            return Err(SessionGetError::Unknown);
        }
        match self.find_session(id) {
            Some(i) => {
                proof {
                    assert(self@.sessions[i as int] == self.sessions@[i as int]@);
                }
                let user_id = self.sessions[i].user_id;
                match self.find_user_by_id(user_id) {
                    Some(j) => {
                        let joined = Session {
                            id: self.sessions[i].id.clone(),
                            user: self.users[j].clone(),
                            expires: self.sessions[i].expires,
                        };
                        proof {
                            assert(self@.users[j as int] == self.users@[j as int]@);
                            assert(self@.users[j as int] == joined@.user);
                            assert(self@.users.contains(joined@.user));
                            assert(session_get_ok(self@, id@, joined@));
                        }
                        Ok(joined)
                    },
                    None => {
                        proof {
                            assert forall|k: int|
                                0 <= k < self@.sessions.len() && #[trigger] self@.sessions[k].id
                                    == id@ implies !crate::model::has_user_id(
                                self@.users,
                                self@.sessions[k].user_id,
                            ) by {
                                if k < i as int {
                                } else if k > i as int {
                                    assert(self@.sessions[i as int].id == self@.sessions[k].id);
                                }
                            }
                            assert(!session_join_ok(self@, id@));
                        }
                        Err(SessionGetError::Missing)
                    },
                }
            },
            None => {
                proof {
                    assert(!session_join_ok(self@, id@));
                }
                Err(SessionGetError::Missing)
            },
        }
    }

    fn delete(&mut self, id: &str) -> (r: Result<(), SessionDeleteError>) {
        if self.failing {
            return Err(SessionDeleteError::Unknown);
        }
        let ghost pred = |s: SessionRow| s.id != id@;
        let needle: String = id.to_owned();
        let n = self.sessions.len();
        let mut kept: Vec<SessionData> = Vec::new();
        proof {
            reveal(Seq::filter);
            assert(kept.deep_view() =~= Seq::<SessionRow>::empty());
            assert(self@.sessions.subrange(0, 0) =~= Seq::<SessionRow>::empty());
            assert(self@.sessions.subrange(0, 0).filter(pred) =~= Seq::<SessionRow>::empty());
        }
        let mut i: usize = 0;
        while i < n
            invariant
                n == self.sessions.len(),
                i <= n,
                needle@ == id@,
                pred == (|s: SessionRow| s.id != id@),
                kept.deep_view() == self@.sessions.subrange(0, i as int).filter(pred),
            decreases n - i,
        {
            proof {
                reveal(Seq::filter);
                assert(self@.sessions[i as int] == self.sessions@[i as int]@);
                let prefix = self@.sessions.subrange(0, i as int);
                let nextp = self@.sessions.subrange(0, i + 1 as int);
                assert(nextp.drop_last() =~= prefix);
                assert(nextp.last() == self@.sessions[i as int]);
            }
            if !self.sessions[i].id.eq(&needle) {
                let row = self.sessions[i].clone();
                proof {
                    assert(row.deep_view() == self@.sessions[i as int]);
                }
                kept.push(row);
                proof {
                    assert(kept.deep_view() =~= self@.sessions.subrange(0, i + 1 as int).filter(
                        pred,
                    ));
                }
            } else {
                proof {
                    assert(kept.deep_view() =~= self@.sessions.subrange(0, i + 1 as int).filter(
                        pred,
                    ));
                }
            }
            i += 1;
        }
        let ghost pre = self@;
        self.sessions = kept;
        proof {
            assert(pre.sessions.subrange(0, n as int) =~= pre.sessions);
            assert(self@.sessions == without_session(pre.sessions, id@));
            assert(self@ =~= (StoreModel {
                sessions: without_session(pre.sessions, id@),
                ..pre
            }));
            crate::model::lemma_without_session_unique(pre.sessions, id@);
        }
        Ok(())
    }
}

} // verus!
