//! Sharing: an owner mints an opaque random token bound to a project; any
//! authenticated holder of the token redeems it, which records a sharing
//! grant. Tokens are not single-use and do not expire.

use rand::Rng;

use vstd::prelude::*;

use crate::domain::{GrantRow, ShareToken, SharingGrant, TokenRow};
use crate::model::{has_token, owns_project, StoreModel};
use crate::store::MemoryStore;

verus! {

#[derive(Debug, PartialEq, Eq)]
pub enum ProjectSharingCreateError {
    Unknown,
}

#[derive(Debug, PartialEq, Eq)]
pub enum ProjectSharingUpdateError {
    Unknown,
}

/// The alphabet share tokens are drawn from.
pub open spec fn is_token_char(c: char) -> bool {
    ('0' <= c && c <= '9') || ('a' <= c && c <= 'z') || ('A' <= c && c <= 'Z')
}

pub open spec fn token_chars_ok(t: Seq<char>) -> bool {
    forall|i: int| 0 <= i < t.len() ==> is_token_char(#[trigger] t[i])
}

/// The project bound to a token (unique in a well-formed store).
pub open spec fn token_project_of(tokens: Seq<TokenRow>, token: Seq<char>) -> int {
    (choose|row: TokenRow| #![auto] tokens.contains(row) && row.token == token).project_id
}

/// Recording a minted token: refused — leaving the store unchanged — while
/// the store is failing, when the requester does not own the project, or when
/// the token collides with one already recorded.
pub open spec fn share_insert_post(
    pre: StoreModel,
    post: StoreModel,
    project_id: int,
    user_id: int,
    token: Seq<char>,
    r: Result<String, ProjectSharingCreateError>,
) -> bool {
    if pre.failing || !owns_project(pre.projects, project_id, user_id) || has_token(
        pre.tokens,
        token,
    ) {
        r == Err::<String, ProjectSharingCreateError>(ProjectSharingCreateError::Unknown) && post
            == pre
    } else {
        r matches Ok(t) && t@ == token && post == StoreModel {
            tokens: pre.tokens.push(TokenRow { token: token, project_id: project_id }),
            ..pre
        }
    }
}

/// Minting: only the owner receives a token; the token is 64 characters of
/// letters and digits, fresh among the recorded tokens. A failing store, a
/// requester who is not the owner, or a colliding draw is `Unknown` and
/// leaves the store unchanged.
pub open spec fn share_create_post(
    pre: StoreModel,
    post: StoreModel,
    project_id: int,
    user_id: int,
    r: Result<String, ProjectSharingCreateError>,
) -> bool {
    if pre.failing || !owns_project(pre.projects, project_id, user_id) {
        r == Err::<String, ProjectSharingCreateError>(ProjectSharingCreateError::Unknown) && post
            == pre
    } else {
        match r {
            Ok(t) => t@.len() == 64 && token_chars_ok(t@) && !has_token(pre.tokens, t@) && post
                == StoreModel {
                tokens: pre.tokens.push(TokenRow { token: t@, project_id: project_id }),
                ..pre
            },
            Err(_) => post == pre,
        }
    }
}

/// Redeeming: an unknown token is `Unknown` and changes nothing; a known one
/// appends a grant linking the redeemer to the token's project, every time it
/// is redeemed.
pub open spec fn share_redeem_post(
    pre: StoreModel,
    post: StoreModel,
    token: Seq<char>,
    user_id: int,
    r: Result<(), ProjectSharingUpdateError>,
) -> bool {
    if pre.failing || !has_token(pre.tokens, token) {
        r == Err::<(), ProjectSharingUpdateError>(ProjectSharingUpdateError::Unknown) && post
            == pre
    } else {
        r == Ok::<(), ProjectSharingUpdateError>(()) && post == StoreModel {
            grants: pre.grants.push(
                GrantRow { friend_id: user_id, project_id: token_project_of(pre.tokens, token) },
            ),
            ..pre
        }
    }
}

/// Store operations on share tokens and grants.
pub trait ProjectSharingRepository {
    spec fn sharing_inv(&self) -> bool;

    spec fn sharing_view(&self) -> StoreModel;

    /// Mints a share token for a project the requester owns.
    fn create(&mut self, project_id: i32, user_id: i32) -> (r: Result<
        String,
        ProjectSharingCreateError,
    >)
        requires
            old(self).sharing_inv(),
        ensures
            final(self).sharing_inv(),
            share_create_post(
                old(self).sharing_view(),
                final(self).sharing_view(),
                project_id as int,
                user_id as int,
                r,
            ),
    ;

    /// Redeems a share token, granting the redeemer access to its project.
    fn update(&mut self, token: String, user_id: i32) -> (r: Result<(), ProjectSharingUpdateError>)
        requires
            old(self).sharing_inv(),
        ensures
            final(self).sharing_inv(),
            share_redeem_post(
                old(self).sharing_view(),
                final(self).sharing_view(),
                token@,
                user_id as int,
                r,
            ),
    ;
}

impl MemoryStore {
    /// Relies on rand's thread_rng with the Alphanumeric distribution: every
    /// sampled character is an ASCII letter or digit, and exactly `len` of
    /// them are drawn. Nothing is assumed about which ones.
    #[verifier::external_body]
    pub fn generate_random_token(&self, len: usize) -> (r: String)
        ensures
            r@.len() == len as int,
            token_chars_ok(r@),
    {
        rand::thread_rng().sample_iter(&rand::distributions::Alphanumeric).take(len).map(
            char::from,
        ).collect()
    }

    /// Records a minted token, refusing a duplicate draw; deterministic once
    /// the token is fixed.
    pub fn insert_share_token(&mut self, project_id: i32, user_id: i32, token: String) -> (r:
        Result<String, ProjectSharingCreateError>)
        requires
            old(self).wf(),
        ensures
            final(self).wf(),
            share_insert_post(
                old(self)@,
                final(self)@,
                project_id as int,
                user_id as int,
                token@,
                r,
            ),
    {
        if self.failing {
            return Err(ProjectSharingCreateError::Unknown);
        }
        match self.find_project(project_id) {
            None => {
                proof {
                    assert(!owns_project(self@.projects, project_id as int, user_id as int));
                }
                return Err(ProjectSharingCreateError::Unknown);
            },
            Some(i) => {
                proof {
                    assert(self@.projects[i as int] == self.projects@[i as int]@);
                }
                if self.projects[i].owner != user_id {
                    proof {
                        assert forall|k: int|
                            0 <= k < self@.projects.len() && #[trigger] self@.projects[k].project_id
                                == project_id as int implies self@.projects[k].owner
                            != user_id as int by {
                            if k != i as int {
                                assert(self@.projects[k].project_id != self@.projects[i as int]
                                    .project_id);
                            }
                        }
                        assert(!owns_project(self@.projects, project_id as int, user_id as int));
                    }
                    return Err(ProjectSharingCreateError::Unknown);
                }
                proof {
                    assert(owns_project(self@.projects, project_id as int, user_id as int));
                }
            },
        }
        if self.find_token(token.as_str()).is_some() {
            proof {
                assert(has_token(self@.tokens, token@));
            }
            return Err(ProjectSharingCreateError::Unknown);
        }
        let ghost pre = self@;
        let row = ShareToken { token: token.clone(), project_id };
        self.tokens.push(row);
        proof {
            assert(self@.tokens =~= pre.tokens.push(
                TokenRow { token: token@, project_id: project_id as int },
            ));
            assert(self@ =~= (StoreModel {
                tokens: pre.tokens.push(
                    TokenRow { token: token@, project_id: project_id as int },
                ),
                ..pre
            }));
            assert forall|i: int, j: int| 0 <= i < j < self@.tokens.len() implies
                self@.tokens[i].token != self@.tokens[j].token by {
                if j == self@.tokens.len() - 1 {
                    assert(!has_token(pre.tokens, token@));
                    assert(pre.tokens[i].token != token@);
                }
            }
        }
        Ok(token)
    }
}

impl ProjectSharingRepository for MemoryStore {
    open spec fn sharing_inv(&self) -> bool {
        self.wf()
    }

    open spec fn sharing_view(&self) -> StoreModel {
        self@
    }

    fn create(&mut self, project_id: i32, user_id: i32) -> (r: Result<
        String,
        ProjectSharingCreateError,
    >) {
        let token = self.generate_random_token(64);
        self.insert_share_token(project_id, user_id, token)
    }

    fn update(&mut self, token: String, user_id: i32) -> (r: Result<
        (),
        ProjectSharingUpdateError,
    >) {
        if self.failing {
            return Err(ProjectSharingUpdateError::Unknown);
        }
        let i = match self.find_token(token.as_str()) {
            Some(i) => i,
            None => {
                return Err(ProjectSharingUpdateError::Unknown);
            },
        };
        proof {
            assert(self@.tokens[i as int] == self.tokens@[i as int]@);
            let target = self@.tokens[i as int];
            assert(self@.tokens.contains(target) && target.token == token@);
            let row = choose|row: TokenRow|
                #![auto]
                self@.tokens.contains(row) && row.token == token@;
            assert(self@.tokens.contains(row) && row.token == token@);
            let k = choose|k: int| 0 <= k < self@.tokens.len() && self@.tokens[k] == row;
            assert(self@.tokens[k] == row);
            assert(k == i as int);
            assert(token_project_of(self@.tokens, token@) == target.project_id);
        }
        let ghost pre = self@;
        let grant = SharingGrant { friend_id: user_id, project_id: self.tokens[i].project_id };
        self.grants.push(grant);
        proof {
            assert(self@.grants =~= pre.grants.push(
                GrantRow {
                    friend_id: user_id as int,
                    project_id: token_project_of(pre.tokens, token@),
                },
            ));
            assert(self@ =~= (StoreModel {
                grants: pre.grants.push(
                    GrantRow {
                        friend_id: user_id as int,
                        project_id: token_project_of(pre.tokens, token@),
                    },
                ),
                ..pre
            }));
        }
        Ok(())
    }
}

} // verus!
