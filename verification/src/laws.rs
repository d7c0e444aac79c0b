//! The laws of the store, proved from the repository contracts alone: each
//! proof function quantifies over every store state and call outcome the
//! contracts admit.

use vstd::prelude::*;
use vstd::utf8::{encode_utf8_decode_utf8, encode_utf8_valid_utf8};

use crate::domain::{DocumentRow, Project, Session, SessionRow};
use crate::filesystem::{blob_path, FileReadError, FileWriteError};
use crate::model::{
    blob_at, has_blob, has_document, has_session, has_token, lemma_blob_at_upsert_same,
    lemma_grant_count_push, lemma_listing_contains, lemma_without_session_idempotent,
    lemma_without_session_removes, list_projects, listing_has_project, owns_project,
    session_join_ok, without_session, StoreModel,
};
use crate::repository::documents::{
    document_read_post, document_write_post, DocumentGetError, DocumentUpdateError,
};
use crate::repository::projects::{
    main_document_name, project_insert_post, provision_result, ProjectInsertError,
};
use crate::repository::sessions::{
    session_delete_post, session_get_post, session_insert_post, SessionDeleteError,
    SessionGetError, SessionInsertError,
};
use crate::repository::sharing::{
    share_create_post, share_redeem_post, ProjectSharingCreateError, ProjectSharingUpdateError,
};
use crate::store::{read_file_post, write_file_post};

verus! {

/// Provisioning is atomic: on success the returned project's main document
/// row exists, linked back to the project, and a zero-byte blob sits at its
/// derived path; on failure not one project row became visible.
pub proof fn lemma_provisioning_atomic(
    pre: StoreModel,
    post: StoreModel,
    name: Seq<char>,
    owner_id: int,
    r: Result<Project, ProjectInsertError>,
)
    requires
        project_insert_post(pre, post, name, owner_id, r),
    ensures
        r matches Ok(p) ==> has_document(post.documents, p@.project_id, p@.main_document_id)
            && blob_at(post.blobs, blob_path(post.root, p@.project_id, main_document_name()))
            == Some(Seq::<u8>::empty()) && post.projects == pre.projects.push(p@),
        r is Err ==> post == pre,
{
    match r {
        Ok(p) => {
            assert(post == provision_result(pre, owner_id, name));
            let nd = post.documents.len() - 1;
            assert(post.documents[nd].document_id == p@.main_document_id);
            assert(post.documents[nd].project_id == p@.project_id);
            lemma_blob_at_upsert_same(
                pre.blobs,
                blob_path(pre.root, pre.next_id + 1, main_document_name()),
                Seq::<u8>::empty(),
            );
        },
        Err(_) => {},
    }
}

/// Ending a session is idempotent: on a reachable store neither the first
/// nor the second deletion of a token errors, and the second changes
/// nothing.
pub proof fn lemma_delete_session_idempotent(
    m0: StoreModel,
    m1: StoreModel,
    m2: StoreModel,
    token: Seq<char>,
    r1: Result<(), SessionDeleteError>,
    r2: Result<(), SessionDeleteError>,
)
    requires
        !m0.failing,
        session_delete_post(m0, m1, token, r1),
        session_delete_post(m1, m2, token, r2),
    ensures
        r1 == Ok::<(), SessionDeleteError>(()),
        r2 == Ok::<(), SessionDeleteError>(()),
        m2 == m1,
{
    lemma_without_session_idempotent(m0.sessions, token);
    assert(m2 =~= m1);
}

/// A token that was never inserted resolves to `Missing`.
pub proof fn lemma_get_never_inserted(
    m: StoreModel,
    token: Seq<char>,
    r: Result<Session, SessionGetError>,
)
    requires
        !m.failing,
        !has_session(m.sessions, token),
        session_get_post(m, token, r),
    ensures
        r == Err::<Session, SessionGetError>(SessionGetError::Missing),
{
    assert(!session_join_ok(m, token));
}

/// After inserting a session under a fresh token, the token resolves to that
/// session, joined with its user.
pub proof fn lemma_get_after_create(
    m0: StoreModel,
    m1: StoreModel,
    s: SessionRow,
    r1: Result<(), SessionInsertError>,
    r2: Result<Session, SessionGetError>,
)
    requires
        !m0.failing,
        !has_session(m0.sessions, s.id),
        crate::model::has_user_id(m0.users, s.user_id),
        session_insert_post(m0, m1, s, r1),
        session_get_post(m1, s.id, r2),
    ensures
        r1 == Ok::<(), SessionInsertError>(()),
        r2 matches Ok(j) && j@.id == s.id && j@.expires == s.expires && j@.user.id == s.user_id,
{
    let ns = m1.sessions.len() - 1;
    assert(m1.sessions[ns] == s);
    assert(session_join_ok(m1, s.id));
    match r2 {
        Ok(j) => {
            let w = choose|i: int|
                0 <= i < m1.sessions.len() && #[trigger] m1.sessions[i].id == s.id && j@.id == s.id
                    && j@.expires == m1.sessions[i].expires && j@.user.id == m1.sessions[i].user_id
                    && m1.users.contains(j@.user);
            if w < ns {
                assert(m0.sessions[w].id == s.id);
                assert(has_session(m0.sessions, s.id));
                assert(false);
            }
        },
        Err(_) => {
            assert(false);
        },
    }
}

/// After inserting a session and deleting its token, the token resolves to
/// `Missing` again.
pub proof fn lemma_get_after_create_delete(
    m0: StoreModel,
    m1: StoreModel,
    m2: StoreModel,
    s: SessionRow,
    r1: Result<(), SessionInsertError>,
    r2: Result<(), SessionDeleteError>,
    r3: Result<Session, SessionGetError>,
)
    requires
        !m0.failing,
        session_insert_post(m0, m1, s, r1),
        session_delete_post(m1, m2, s.id, r2),
        session_get_post(m2, s.id, r3),
    ensures
        r3 == Err::<Session, SessionGetError>(SessionGetError::Missing),
{
    assert(!m1.failing);
    assert(m2.sessions == without_session(m1.sessions, s.id));
    lemma_without_session_removes(m1.sessions, s.id);
    assert(!m2.failing);
    assert(!session_join_ok(m2, s.id));
}

/// Inserting a session under a token already present reports `Duplicate` and
/// leaves the store — the original session included — unmodified.
pub proof fn lemma_duplicate_session_preserved(
    m0: StoreModel,
    m1: StoreModel,
    s: SessionRow,
    r: Result<(), SessionInsertError>,
)
    requires
        !m0.failing,
        has_session(m0.sessions, s.id),
        session_insert_post(m0, m1, s, r),
    ensures
        r == Err::<(), SessionInsertError>(SessionInsertError::Duplicate),
        m1 == m0,
{
}

/// Share-token round trip: after the owner mints a token and another user
/// redeems it — even twice, which never errors — the project appears in that
/// user's listing.
pub proof fn lemma_share_round_trip(
    m0: StoreModel,
    m1: StoreModel,
    m2: StoreModel,
    m3: StoreModel,
    project_id: int,
    owner: int,
    friend: int,
    tok: String,
    r2: Result<(), ProjectSharingUpdateError>,
    r3: Result<(), ProjectSharingUpdateError>,
)
    requires
        !m0.failing,
        owns_project(m0.projects, project_id, owner),
        share_create_post(m0, m1, project_id, owner, Ok(tok)),
        share_redeem_post(m1, m2, tok@, friend, r2),
        share_redeem_post(m2, m3, tok@, friend, r3),
    ensures
        r2 == Ok::<(), ProjectSharingUpdateError>(()),
        r3 == Ok::<(), ProjectSharingUpdateError>(()),
        listing_has_project(list_projects(m2.projects, m2.grants, friend), project_id),
        listing_has_project(list_projects(m3.projects, m3.grants, friend), project_id),
{
    let nt = m1.tokens.len() - 1;
    assert(m1.tokens[nt].token == tok@);
    assert(m1.tokens.contains(m1.tokens[nt]));
    assert(has_token(m1.tokens, tok@));
    assert(!m1.failing);
    assert forall|row: crate::domain::TokenRow|
        m1.tokens.contains(row) && row.token == tok@ implies row.project_id == project_id by {
        let k = choose|k: int| 0 <= k < m1.tokens.len() && m1.tokens[k] == row;
        if k < nt {
            assert(m1.tokens[k] == m0.tokens[k]);
            assert(has_token(m0.tokens, tok@));
            assert(false);
        }
    }
    assert(crate::repository::sharing::token_project_of(m1.tokens, tok@) == project_id);
    assert(r2 == Ok::<(), ProjectSharingUpdateError>(()));
    let g = crate::domain::GrantRow { friend_id: friend, project_id: project_id };
    assert(m2.grants == m1.grants.push(g));
    crate::model::lemma_grant_count_nonneg(m1.grants, friend, project_id);
    lemma_grant_count_push(m1.grants, g, friend, project_id);
    assert(crate::model::grant_count(m2.grants, friend, project_id) > 0);
    let w0 = choose|i: int|
        0 <= i < m0.projects.len() && #[trigger] m0.projects[i].project_id == project_id
            && m0.projects[i].owner == owner;
    assert(m2.projects == m0.projects);
    assert(m2.projects[w0].project_id == project_id);
    lemma_listing_contains(m2.projects, m2.grants, friend, w0);

    assert(m2.tokens == m1.tokens);
    assert(m2.tokens.contains(m1.tokens[nt]));
    assert(has_token(m2.tokens, tok@));
    assert(!m2.failing);
    assert forall|row: crate::domain::TokenRow|
        m2.tokens.contains(row) && row.token == tok@ implies row.project_id == project_id by {
        let k = choose|k: int| 0 <= k < m1.tokens.len() && m1.tokens[k] == row;
        if k < nt {
            assert(m1.tokens[k] == m0.tokens[k]);
            assert(has_token(m0.tokens, tok@));
            assert(false);
        }
    }
    assert(crate::repository::sharing::token_project_of(m2.tokens, tok@) == project_id);
    assert(r3 == Ok::<(), ProjectSharingUpdateError>(()));
    assert(m3.grants == m2.grants.push(g));
    crate::model::lemma_grant_count_nonneg(m2.grants, friend, project_id);
    lemma_grant_count_push(m2.grants, g, friend, project_id);
    assert(crate::model::grant_count(m3.grants, friend, project_id) > 0);
    assert(m3.projects == m0.projects);
    assert(m3.projects[w0].project_id == project_id);
    lemma_listing_contains(m3.projects, m3.grants, friend, w0);
}

/// A write that may create always succeeds on a reachable store, and a read
/// at that path then returns exactly the written content.
pub proof fn lemma_write_then_read(
    pre: StoreModel,
    post: StoreModel,
    path: Seq<char>,
    content: Seq<u8>,
    w: Result<(), FileWriteError>,
    r: Result<Vec<u8>, FileReadError>,
)
    requires
        !pre.failing,
        write_file_post(pre, post, path, content, true, w),
        read_file_post(post, path, r),
    ensures
        w == Ok::<(), FileWriteError>(()),
        r matches Ok(v) && v@ == content,
{
    lemma_blob_at_upsert_same(pre.blobs, path, content);
}

/// A write refused to create reports `Missing` against an absent path and
/// stores nothing.
pub proof fn lemma_write_missing_no_effect(
    pre: StoreModel,
    post: StoreModel,
    path: Seq<char>,
    content: Seq<u8>,
    w: Result<(), FileWriteError>,
)
    requires
        !pre.failing,
        !has_blob(pre.blobs, path),
        write_file_post(pre, post, path, content, false, w),
    ensures
        w == Err::<(), FileWriteError>(FileWriteError::Missing),
        post == pre,
{
}

/// Writing a document's text and reading it back returns the same text.
pub proof fn lemma_document_content_round_trip(
    pre: StoreModel,
    post: StoreModel,
    d: DocumentRow,
    content: Seq<char>,
    w: Result<(), DocumentUpdateError>,
    r: Result<String, DocumentGetError>,
)
    requires
        !pre.failing,
        has_blob(pre.blobs, blob_path(pre.root, d.project_id, d.name)),
        document_write_post(pre, post, d, content, w),
        document_read_post(post, d, r),
    ensures
        w == Ok::<(), DocumentUpdateError>(()),
        r matches Ok(s) && s@ == content,
{
    let path = blob_path(pre.root, d.project_id, d.name);
    broadcast use encode_utf8_valid_utf8, encode_utf8_decode_utf8;

    lemma_blob_at_upsert_same(pre.blobs, path, vstd::utf8::encode_utf8(content));
    assert(post.root == pre.root);
    assert(blob_at(post.blobs, path) == Some(vstd::utf8::encode_utf8(content)));
}

} // verus!
