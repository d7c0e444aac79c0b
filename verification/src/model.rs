//! The mathematical model of the whole store: one `StoreModel` value holds the
//! relational tables, the blob store, the id allocator, the server clock and a
//! reachability flag. Every repository contract is a relation between the
//! model before and after the call.

use vstd::prelude::*;

use crate::domain::{DocumentRow, GrantRow, ProjectRow, ResourceRow, SessionRow, TokenRow, UserRow};

verus! {

/// One blob: the content stored at a derived path.
#[verifier::ext_equal]
pub struct BlobRow {
    pub path: Seq<char>,
    pub data: Seq<u8>,
}

/// The state of the whole store, as contracts see it. `failing` models an
/// unreachable backing store: while it is set, every operation reports
/// `Unknown` and changes nothing.
#[verifier::ext_equal]
pub struct StoreModel {
    pub root: Seq<char>,
    pub users: Seq<UserRow>,
    pub sessions: Seq<SessionRow>,
    pub projects: Seq<ProjectRow>,
    pub documents: Seq<DocumentRow>,
    pub resources: Seq<ResourceRow>,
    pub tokens: Seq<TokenRow>,
    pub grants: Seq<GrantRow>,
    pub blobs: Seq<BlobRow>,
    pub next_id: int,
    pub clock: int,
    pub failing: bool,
}

// ---------------------------------------------------------------------------
// Lookups
// ---------------------------------------------------------------------------

pub open spec fn has_user_id(users: Seq<UserRow>, id: int) -> bool {
    exists|i: int| 0 <= i < users.len() && #[trigger] users[i].id == id
}

pub open spec fn has_user_email(users: Seq<UserRow>, email: Seq<char>) -> bool {
    exists|i: int| 0 <= i < users.len() && #[trigger] users[i].email == email
}

pub open spec fn has_session(sessions: Seq<SessionRow>, token: Seq<char>) -> bool {
    exists|i: int| 0 <= i < sessions.len() && #[trigger] sessions[i].id == token
}

/// A session lookup succeeds when the token matches a session row and the
/// user it references exists: retrieval joins the two tables.
pub open spec fn session_join_ok(m: StoreModel, token: Seq<char>) -> bool {
    exists|i: int|
        0 <= i < m.sessions.len() && #[trigger] m.sessions[i].id == token && has_user_id(
            m.users,
            m.sessions[i].user_id,
        )
}

pub open spec fn has_project(projects: Seq<ProjectRow>, project_id: int) -> bool {
    exists|i: int| 0 <= i < projects.len() && #[trigger] projects[i].project_id == project_id
}

pub open spec fn owns_project(projects: Seq<ProjectRow>, project_id: int, owner: int) -> bool {
    exists|i: int|
        0 <= i < projects.len() && #[trigger] projects[i].project_id == project_id
            && projects[i].owner == owner
}

pub open spec fn has_document(documents: Seq<DocumentRow>, project_id: int, document_id: int) -> bool {
    exists|i: int|
        0 <= i < documents.len() && #[trigger] documents[i].document_id == document_id
            && documents[i].project_id == project_id
}

pub open spec fn has_resource(resources: Seq<ResourceRow>, project_id: int, resource_id: int) -> bool {
    exists|i: int|
        0 <= i < resources.len() && #[trigger] resources[i].resource_id == resource_id
            && resources[i].project_id == project_id
}

pub open spec fn has_resource_named(resources: Seq<ResourceRow>, project_id: int, name: Seq<char>) -> bool {
    exists|i: int|
        0 <= i < resources.len() && #[trigger] resources[i].project_id == project_id
            && resources[i].name == name
}

pub open spec fn has_token(tokens: Seq<TokenRow>, token: Seq<char>) -> bool {
    exists|i: int| 0 <= i < tokens.len() && #[trigger] tokens[i].token == token
}

pub open spec fn has_session_for_user(sessions: Seq<SessionRow>, user_id: int) -> bool {
    exists|i: int| 0 <= i < sessions.len() && #[trigger] sessions[i].user_id == user_id
}

// ---------------------------------------------------------------------------
// Table transitions
// ---------------------------------------------------------------------------

/// Deleting a session removes every row carrying the token (at most one in a
/// well-formed store).
pub open spec fn without_session(sessions: Seq<SessionRow>, token: Seq<char>) -> Seq<SessionRow> {
    sessions.filter(|s: SessionRow| s.id != token)
}

/// Deletion keeps a subsequence: every kept row comes from the table, and
/// pairwise-distinct tokens stay pairwise distinct.
pub proof fn lemma_without_session_unique(sessions: Seq<SessionRow>, token: Seq<char>)
    requires
        forall|i: int, j: int|
            0 <= i < j < sessions.len() ==> #[trigger] sessions[i].id != #[trigger] sessions[j].id,
    ensures
        forall|k: int|
            0 <= k < without_session(sessions, token).len() ==> sessions.contains(
                #[trigger] without_session(sessions, token)[k],
            ),
        forall|a: int, b: int|
            0 <= a < b < without_session(sessions, token).len() ==> #[trigger] without_session(
                sessions,
                token,
            )[a].id != #[trigger] without_session(sessions, token)[b].id,
    decreases sessions.len(),
{
    reveal(Seq::filter);
    if sessions.len() == 0 {
    } else {
        let rest = sessions.drop_last();
        lemma_without_session_unique(rest, token);
        let wr = without_session(rest, token);
        let w = without_session(sessions, token);
        assert forall|k: int| 0 <= k < wr.len() implies sessions.contains(wr[k]) by {
            assert(rest.contains(wr[k]));
            let m0 = choose|m: int| 0 <= m < rest.len() && rest[m] == wr[k];
            assert(sessions[m0] == wr[k]);
        }
        if sessions.last().id != token {
            assert(w =~= wr.push(sessions.last()));
            assert forall|a: int, b: int| 0 <= a < b < w.len() implies w[a].id != w[b].id by {
                if b == w.len() - 1 {
                    assert(rest.contains(wr[a]));
                    let m0 = choose|m: int| 0 <= m < rest.len() && rest[m] == wr[a];
                    assert(sessions[m0] == wr[a]);
                    assert(sessions[m0].id != sessions[sessions.len() - 1].id);
                }
            }
        } else {
            assert(w =~= wr);
        }
    }
}

/// Renaming a project touches exactly the rows with the given id.
pub open spec fn rename_project(projects: Seq<ProjectRow>, project_id: int, name: Seq<char>) -> Seq<
    ProjectRow,
> {
    projects.map_values(
        |p: ProjectRow|
            if p.project_id == project_id {
                ProjectRow { name: name, ..p }
            } else {
                p
            },
    )
}

/// Renaming a document touches exactly the rows with the given id.
pub open spec fn rename_document(documents: Seq<DocumentRow>, document_id: int, name: Seq<char>) -> Seq<
    DocumentRow,
> {
    documents.map_values(
        |d: DocumentRow|
            if d.document_id == document_id {
                DocumentRow { name: name, ..d }
            } else {
                d
            },
    )
}

pub open spec fn documents_of_project(documents: Seq<DocumentRow>, project_id: int) -> Seq<DocumentRow> {
    documents.filter(|d: DocumentRow| d.project_id == project_id)
}

pub open spec fn resources_of_project(resources: Seq<ResourceRow>, project_id: int) -> Seq<ResourceRow> {
    resources.filter(|r: ResourceRow| r.project_id == project_id)
}

// ---------------------------------------------------------------------------
// Blob store
// ---------------------------------------------------------------------------

/// The content stored at a path: the first row whose path matches.
pub open spec fn blob_at(blobs: Seq<BlobRow>, path: Seq<char>) -> Option<Seq<u8>>
    decreases blobs.len(),
{
    if blobs.len() == 0 {
        None
    } else if blobs[0].path == path {
        Some(blobs[0].data)
    } else {
        blob_at(blobs.drop_first(), path)
    }
}

pub open spec fn has_blob(blobs: Seq<BlobRow>, path: Seq<char>) -> bool {
    blob_at(blobs, path) is Some
}

/// Writing replaces the first row at the path, or appends a fresh row.
pub open spec fn blob_upsert(blobs: Seq<BlobRow>, path: Seq<char>, data: Seq<u8>) -> Seq<BlobRow>
    decreases blobs.len(),
{
    if blobs.len() == 0 {
        seq![BlobRow { path: path, data: data }]
    } else if blobs[0].path == path {
        seq![BlobRow { path: path, data: data }] + blobs.drop_first()
    } else {
        seq![blobs[0]] + blob_upsert(blobs.drop_first(), path, data)
    }
}

/// A write lands at its own path.
pub proof fn lemma_blob_at_upsert_same(blobs: Seq<BlobRow>, path: Seq<char>, data: Seq<u8>)
    ensures
        blob_at(blob_upsert(blobs, path, data), path) == Some(data),
    decreases blobs.len(),
{
    if blobs.len() == 0 {
    } else if blobs[0].path == path {
    } else {
        lemma_blob_at_upsert_same(blobs.drop_first(), path, data);
        let up = blob_upsert(blobs, path, data);
        assert(up.drop_first() =~= blob_upsert(blobs.drop_first(), path, data));
    }
}

/// A write leaves every other path untouched.
pub proof fn lemma_blob_at_upsert_other(
    blobs: Seq<BlobRow>,
    path: Seq<char>,
    data: Seq<u8>,
    other: Seq<char>,
)
    requires
        other != path,
    ensures
        blob_at(blob_upsert(blobs, path, data), other) == blob_at(blobs, other),
    decreases blobs.len(),
{
    if blobs.len() == 0 {
        let up = blob_upsert(blobs, path, data);
        assert(up[0].path == path);
        assert(up.drop_first() =~= Seq::<BlobRow>::empty());
        assert(blob_at(Seq::<BlobRow>::empty(), other) is None);
        assert(blob_at(up, other) == blob_at(blobs, other));
    } else if blobs[0].path == path {
        let up = blob_upsert(blobs, path, data);
        assert(up[0].path == path);
        assert(up.drop_first() =~= blobs.drop_first());
    } else {
        lemma_blob_at_upsert_other(blobs.drop_first(), path, data, other);
        let up = blob_upsert(blobs, path, data);
        assert(up[0] == blobs[0]);
        assert(up.drop_first() =~= blob_upsert(blobs.drop_first(), path, data));
    }
}

/// When position `i` holds the first row at `path`, writing is an in-place
/// update of that row.
pub proof fn lemma_blob_upsert_is_update(blobs: Seq<BlobRow>, path: Seq<char>, data: Seq<u8>, i: int)
    requires
        0 <= i < blobs.len(),
        blobs[i].path == path,
        forall|j: int| 0 <= j < i ==> #[trigger] blobs[j].path != path,
    ensures
        blob_upsert(blobs, path, data) =~= blobs.update(i, BlobRow { path: path, data: data }),
    decreases blobs.len(),
{
    if i == 0 {
        assert(blob_upsert(blobs, path, data) =~= blobs.update(
            0,
            BlobRow { path: path, data: data },
        ));
    } else {
        assert(forall|j: int|
            0 <= j < i - 1 ==> #[trigger] blobs.drop_first()[j].path != path) by {
            assert(forall|j: int|
                0 <= j < i - 1 ==> blobs.drop_first()[j] == #[trigger] blobs[j + 1]);
        }
        lemma_blob_upsert_is_update(blobs.drop_first(), path, data, i - 1);
        assert(blob_upsert(blobs, path, data) =~= blobs.update(
            i,
            BlobRow { path: path, data: data },
        ));
    }
}

/// When no row holds the path, writing appends a fresh row.
pub proof fn lemma_blob_upsert_is_push(blobs: Seq<BlobRow>, path: Seq<char>, data: Seq<u8>)
    requires
        forall|j: int| 0 <= j < blobs.len() ==> #[trigger] blobs[j].path != path,
    ensures
        blob_upsert(blobs, path, data) =~= blobs.push(BlobRow { path: path, data: data }),
    decreases blobs.len(),
{
    if blobs.len() == 0 {
    } else {
        assert(forall|j: int|
            0 <= j < blobs.drop_first().len() ==> #[trigger] blobs.drop_first()[j].path
                != path) by {
            assert(forall|j: int|
                0 <= j < blobs.len() - 1 ==> blobs.drop_first()[j] == #[trigger] blobs[j + 1]);
        }
        lemma_blob_upsert_is_push(blobs.drop_first(), path, data);
    }
}

/// A lookup that stops at the first match agrees with `blob_at`.
pub proof fn lemma_blob_at_first_match(blobs: Seq<BlobRow>, path: Seq<char>, i: int)
    requires
        0 <= i < blobs.len(),
        blobs[i].path == path,
        forall|j: int| 0 <= j < i ==> #[trigger] blobs[j].path != path,
    ensures
        blob_at(blobs, path) == Some(blobs[i].data),
    decreases i,
{
    if i == 0 {
    } else {
        assert(forall|j: int|
            0 <= j < i - 1 ==> #[trigger] blobs.drop_first()[j].path != path) by {
            assert(forall|j: int|
                0 <= j < i - 1 ==> blobs.drop_first()[j] == #[trigger] blobs[j + 1]);
        }
        lemma_blob_at_first_match(blobs.drop_first(), path, i - 1);
    }
}

/// When no row holds the path, the lookup reports absence.
pub proof fn lemma_blob_at_no_match(blobs: Seq<BlobRow>, path: Seq<char>)
    requires
        forall|j: int| 0 <= j < blobs.len() ==> #[trigger] blobs[j].path != path,
    ensures
        blob_at(blobs, path) is None,
    decreases blobs.len(),
{
    if blobs.len() == 0 {
    } else {
        assert(forall|j: int|
            0 <= j < blobs.drop_first().len() ==> #[trigger] blobs.drop_first()[j].path
                != path) by {
            assert(forall|j: int|
                0 <= j < blobs.len() - 1 ==> blobs.drop_first()[j] == #[trigger] blobs[j + 1]);
        }
        lemma_blob_at_no_match(blobs.drop_first(), path);
    }
}

// ---------------------------------------------------------------------------
// Project listing
// ---------------------------------------------------------------------------

/// How many sharing grants link the user to the project. The listing query
/// joins on the grant rows, so each grant row contributes one copy.
pub open spec fn grant_count(grants: Seq<GrantRow>, user_id: int, project_id: int) -> int
    decreases grants.len(),
{
    if grants.len() == 0 {
        0
    } else {
        grant_count(grants.drop_last(), user_id, project_id) + if grants.last().friend_id
            == user_id && grants.last().project_id == project_id {
            1int
        } else {
            0int
        }
    }
}

pub proof fn lemma_grant_count_nonneg(grants: Seq<GrantRow>, user_id: int, project_id: int)
    ensures
        grant_count(grants, user_id, project_id) >= 0,
    decreases grants.len(),
{
    if grants.len() > 0 {
        lemma_grant_count_nonneg(grants.drop_last(), user_id, project_id);
    }
}

pub open spec fn repeat_row(p: ProjectRow, k: int) -> Seq<ProjectRow> {
    Seq::new(if k >= 0 {
        k as nat
    } else {
        0
    }, |i: int| p)
}

/// The projects a user sees: every project joined once per matching grant
/// row, and otherwise once when the user owns it. This is the join semantics
/// of the listing query.
pub open spec fn list_projects(projects: Seq<ProjectRow>, grants: Seq<GrantRow>, user_id: int) -> Seq<
    ProjectRow,
>
    decreases projects.len(),
{
    if projects.len() == 0 {
        Seq::empty()
    } else {
        let rest = list_projects(projects.drop_last(), grants, user_id);
        let p = projects.last();
        let k = grant_count(grants, user_id, p.project_id);
        if k > 0 {
            rest + repeat_row(p, k)
        } else if p.owner == user_id {
            rest.push(p)
        } else {
            rest
        }
    }
}

pub open spec fn listing_has_project(listing: Seq<ProjectRow>, project_id: int) -> bool {
    exists|i: int| 0 <= i < listing.len() && #[trigger] listing[i].project_id == project_id
}

/// Deleting a token twice is the same as deleting it once.
pub proof fn lemma_without_session_idempotent(sessions: Seq<SessionRow>, token: Seq<char>)
    ensures
        without_session(without_session(sessions, token), token) == without_session(
            sessions,
            token,
        ),
    decreases sessions.len(),
{
    reveal(Seq::filter);
    if sessions.len() == 0 {
        assert(without_session(sessions, token) =~= sessions);
    } else {
        lemma_without_session_idempotent(sessions.drop_last(), token);
        let rest = sessions.drop_last();
        let wr = without_session(rest, token);
        if sessions.last().id != token {
            assert(without_session(sessions, token) == wr.push(sessions.last()));
            assert(wr.push(sessions.last()).drop_last() =~= wr);
            assert(without_session(wr.push(sessions.last()), token) == without_session(
                wr,
                token,
            ).push(sessions.last()));
        }
    }
}

/// After a deletion no session carries the token.
pub proof fn lemma_without_session_removes(sessions: Seq<SessionRow>, token: Seq<char>)
    ensures
        !has_session(without_session(sessions, token), token),
    decreases sessions.len(),
{
    reveal(Seq::filter);
    if sessions.len() == 0 {
    } else {
        lemma_without_session_removes(sessions.drop_last(), token);
        let wr = without_session(sessions.drop_last(), token);
        if sessions.last().id != token {
            assert(without_session(sessions, token) == wr.push(sessions.last()));
            assert forall|i: int|
                0 <= i < without_session(sessions, token).len() implies #[trigger] without_session(
                sessions,
                token,
            )[i].id != token by {
                if i < without_session(sessions, token).len() - 1 {
                    assert(without_session(sessions, token)[i] == wr[i]);
                    assert(wr[i].id != token);
                }
            }
        }
    }
}

/// A project with a sharing grant for the user shows up in the listing.
pub proof fn lemma_listing_contains(
    projects: Seq<ProjectRow>,
    grants: Seq<GrantRow>,
    user_id: int,
    idx: int,
)
    requires
        0 <= idx < projects.len(),
        grant_count(grants, user_id, projects[idx].project_id) > 0,
    ensures
        listing_has_project(
            list_projects(projects, grants, user_id),
            projects[idx].project_id,
        ),
    decreases projects.len(),
{
    let pid = projects[idx].project_id;
    let out = list_projects(projects, grants, user_id);
    if idx == projects.len() - 1 {
        let rest = list_projects(projects.drop_last(), grants, user_id);
        let p = projects.last();
        let k = grant_count(grants, user_id, p.project_id);
        assert(out == rest + repeat_row(p, k));
        assert(out[rest.len() as int] == p);
        assert(out[rest.len() as int].project_id == pid);
    } else {
        lemma_listing_contains(projects.drop_last(), grants, user_id, idx);
        let rest = list_projects(projects.drop_last(), grants, user_id);
        let w = choose|i: int| 0 <= i < rest.len() && #[trigger] rest[i].project_id == pid;
        let p = projects.last();
        let k = grant_count(grants, user_id, p.project_id);
        if k > 0 {
            assert(out == rest + repeat_row(p, k));
            assert(out[w] == rest[w]);
            assert(out[w].project_id == pid);
        } else if p.owner == user_id {
            assert(out == rest.push(p));
            assert(out[w] == rest[w]);
            assert(out[w].project_id == pid);
        } else {
            assert(out == rest);
            assert(out[w].project_id == pid);
        }
    }
}

/// One more matching grant raises the count by one; any grant row keeps the
/// count of every query nonnegative.
pub proof fn lemma_grant_count_push(
    grants: Seq<GrantRow>,
    g: GrantRow,
    user_id: int,
    project_id: int,
)
    ensures
        grant_count(grants.push(g), user_id, project_id) == grant_count(
            grants,
            user_id,
            project_id,
        ) + (if g.friend_id == user_id && g.project_id == project_id {
            1int
        } else {
            0int
        }),
{
    assert(grants.push(g).drop_last() =~= grants);
    assert(grants.push(g).last() == g);
}

// ---------------------------------------------------------------------------
// Well-formedness
// ---------------------------------------------------------------------------

/// Uniqueness of the keys the store relies on, bounded id allocation, and the
/// provisioning invariant: every project's owner exists, and its main
/// document is a document row linked back to the project.
pub open spec fn model_wf(m: StoreModel) -> bool {
    &&& (forall|i: int, j: int|
        0 <= i < j < m.users.len() ==> #[trigger] m.users[i].id != #[trigger] m.users[j].id)
    &&& (forall|i: int, j: int|
        0 <= i < j < m.users.len() ==> #[trigger] m.users[i].email != #[trigger] m.users[j].email)
    &&& (forall|i: int, j: int|
        0 <= i < j < m.sessions.len() ==> #[trigger] m.sessions[i].id
            != #[trigger] m.sessions[j].id)
    &&& (forall|i: int, j: int|
        0 <= i < j < m.projects.len() ==> #[trigger] m.projects[i].project_id
            != #[trigger] m.projects[j].project_id)
    &&& (forall|i: int, j: int|
        0 <= i < j < m.documents.len() ==> #[trigger] m.documents[i].document_id
            != #[trigger] m.documents[j].document_id)
    &&& (forall|i: int, j: int|
        0 <= i < j < m.resources.len() ==> #[trigger] m.resources[i].resource_id
            != #[trigger] m.resources[j].resource_id)
    &&& (forall|i: int, j: int|
        0 <= i < j < m.tokens.len() ==> #[trigger] m.tokens[i].token
            != #[trigger] m.tokens[j].token)
    &&& (forall|i: int, j: int|
        0 <= i < j < m.blobs.len() ==> #[trigger] m.blobs[i].path != #[trigger] m.blobs[j].path)
    &&& (forall|i: int| 0 <= i < m.users.len() ==> #[trigger] m.users[i].id < m.next_id)
    &&& (forall|i: int|
        0 <= i < m.projects.len() ==> #[trigger] m.projects[i].project_id < m.next_id)
    &&& (forall|i: int|
        0 <= i < m.documents.len() ==> #[trigger] m.documents[i].document_id < m.next_id)
    &&& (forall|i: int|
        0 <= i < m.resources.len() ==> #[trigger] m.resources[i].resource_id < m.next_id)
    &&& (forall|i: int|
        0 <= i < m.projects.len() ==> has_user_id(m.users, #[trigger] m.projects[i].owner))
    &&& (forall|i: int|
        0 <= i < m.projects.len() ==> has_document(
            m.documents,
            #[trigger] m.projects[i].project_id,
            m.projects[i].main_document_id,
        ))
}

} // verus!
