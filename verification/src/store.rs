//! The verified in-memory store: one value holds every table, the blob
//! store, the id allocator and the clock, and implements each repository
//! trait against the store model. It stands in for the production stores in
//! proofs and tests. A `failing` flag models an unreachable backing store:
//! while it is set every operation reports `Unknown` and changes nothing.

use vstd::prelude::*;
use vstd::slice::slice_to_vec;

use crate::domain::{
    Document, Project, Resource, SessionData, ShareToken, SharingGrant, User,
};
use crate::filesystem::{FileReadError, FileWriteError};
use crate::model::{
    blob_at, blob_upsert, has_blob, lemma_blob_at_first_match, lemma_blob_at_no_match,
    lemma_blob_upsert_is_push, lemma_blob_upsert_is_update, model_wf, BlobRow, StoreModel,
};

verus! {

/// One stored blob: content addressed by its derived path.
#[derive(Debug, PartialEq, Eq)]
pub struct BlobEntry {
    pub path: String,
    pub data: Vec<u8>,
}

impl View for BlobEntry {
    type V = BlobRow;

    open spec fn view(&self) -> BlobRow {
        BlobRow { path: self.path@, data: self.data@ }
    }
}

impl DeepView for BlobEntry {
    type V = BlobRow;

    open spec fn deep_view(&self) -> BlobRow {
        self.view()
    }
}

/// The in-memory store.
pub struct MemoryStore {
    pub root: String,
    pub users: Vec<User>,
    pub sessions: Vec<SessionData>,
    pub projects: Vec<Project>,
    pub documents: Vec<Document>,
    pub resources: Vec<Resource>,
    pub tokens: Vec<ShareToken>,
    pub grants: Vec<SharingGrant>,
    pub blobs: Vec<BlobEntry>,
    pub next_id: i32,
    pub clock: i64,
    pub failing: bool,
}

impl View for MemoryStore {
    type V = StoreModel;

    open spec fn view(&self) -> StoreModel {
        StoreModel {
            root: self.root@,
            users: self.users.deep_view(),
            sessions: self.sessions.deep_view(),
            projects: self.projects.deep_view(),
            documents: self.documents.deep_view(),
            resources: self.resources.deep_view(),
            tokens: self.tokens.deep_view(),
            grants: self.grants.deep_view(),
            blobs: self.blobs.deep_view(),
            next_id: self.next_id as int,
            clock: self.clock as int,
            failing: self.failing,
        }
    }
}

/// Writing into the blob store: refused while the store is failing, refused
/// with `Missing` when the path is absent and creation was not requested, and
/// otherwise an upsert of exactly the given content.
pub open spec fn write_file_post(
    pre: StoreModel,
    post: StoreModel,
    path: Seq<char>,
    content: Seq<u8>,
    create_if_not_exists: bool,
    r: Result<(), FileWriteError>,
) -> bool {
    if pre.failing {
        r == Err::<(), FileWriteError>(FileWriteError::Unknown) && post == pre
    } else if !has_blob(pre.blobs, path) && !create_if_not_exists {
        r == Err::<(), FileWriteError>(FileWriteError::Missing) && post == pre
    } else {
        r == Ok::<(), FileWriteError>(()) && post == StoreModel {
            blobs: blob_upsert(pre.blobs, path, content),
            ..pre
        }
    }
}

/// Reading from the blob store: refused while the store is failing, `Missing`
/// when the path is absent, and otherwise exactly the stored content.
pub open spec fn read_file_post(
    m: StoreModel,
    path: Seq<char>,
    r: Result<Vec<u8>, FileReadError>,
) -> bool {
    if m.failing {
        r == Err::<Vec<u8>, FileReadError>(FileReadError::Unknown)
    } else {
        match blob_at(m.blobs, path) {
            Some(d) => r matches Ok(v) && v@ == d,
            None => r == Err::<Vec<u8>, FileReadError>(FileReadError::Missing),
        }
    }
}

impl MemoryStore {
    /// Well-formed: the model invariants hold and at least one id is left.
    pub open spec fn wf(&self) -> bool {
        model_wf(self@)
    }

    /// An empty store over the given blob root.
    pub fn new(root: String) -> (s: Self)
        ensures
            s.wf(),
            s@ == (StoreModel {
                root: root@,
                users: Seq::<crate::domain::UserRow>::empty(),
                sessions: Seq::<crate::domain::SessionRow>::empty(),
                projects: Seq::<crate::domain::ProjectRow>::empty(),
                documents: Seq::<crate::domain::DocumentRow>::empty(),
                resources: Seq::<crate::domain::ResourceRow>::empty(),
                tokens: Seq::<crate::domain::TokenRow>::empty(),
                grants: Seq::<crate::domain::GrantRow>::empty(),
                blobs: Seq::<BlobRow>::empty(),
                next_id: 1,
                clock: 0,
                failing: false,
            }),
    {
        let s = MemoryStore {
            root,
            users: Vec::new(),
            sessions: Vec::new(),
            projects: Vec::new(),
            documents: Vec::new(),
            resources: Vec::new(),
            tokens: Vec::new(),
            grants: Vec::new(),
            blobs: Vec::new(),
            next_id: 1,
            clock: 0,
            failing: false,
        };
        proof {
            assert(s.users.deep_view() =~= Seq::<crate::domain::UserRow>::empty());
            assert(s.sessions.deep_view() =~= Seq::<crate::domain::SessionRow>::empty());
            assert(s.projects.deep_view() =~= Seq::<crate::domain::ProjectRow>::empty());
            assert(s.documents.deep_view() =~= Seq::<crate::domain::DocumentRow>::empty());
            assert(s.resources.deep_view() =~= Seq::<crate::domain::ResourceRow>::empty());
            assert(s.tokens.deep_view() =~= Seq::<crate::domain::TokenRow>::empty());
            assert(s.grants.deep_view() =~= Seq::<crate::domain::GrantRow>::empty());
            assert(s.blobs.deep_view() =~= Seq::<BlobRow>::empty());
        }
        s
    }

    /// The root under which blob paths are derived.
    pub fn blob_root(&self) -> (r: &str)
        ensures
            r@ == self@.root,
    {
        self.root.as_str()
    }

    /// Models the backing store becoming unreachable (or reachable again):
    /// while failing, every operation reports `Unknown` and changes nothing.
    pub fn set_failing(&mut self, failing: bool)
        ensures
            final(self)@ == (StoreModel { failing: failing, ..old(self)@ }),
            old(self).wf() ==> final(self).wf(),
    {
        self.failing = failing;
    }

    /// Sets the server clock; provisioning stamps rows with it.
    pub fn set_clock(&mut self, clock: i64)
        ensures
            final(self)@ == (StoreModel { clock: clock as int, ..old(self)@ }),
            old(self).wf() ==> final(self).wf(),
    {
        self.clock = clock;
    }

    /// Index of the first blob stored at the path.
    fn find_blob(&self, path: &str) -> (r: Option<usize>)
        ensures
            r matches Some(i) ==> i < self.blobs.len() && self@.blobs[i as int].path == path@
                && (forall|j: int| 0 <= j < i ==> #[trigger] self@.blobs[j].path != path@),
            r is None ==> forall|j: int|
                0 <= j < self@.blobs.len() ==> #[trigger] self@.blobs[j].path != path@,
    {
        let needle: String = path.to_owned();
        let n = self.blobs.len();
        let mut i: usize = 0;
        while i < n
            invariant
                n == self.blobs.len(),
                i <= n,
                needle@ == path@,
                forall|j: int| 0 <= j < i ==> #[trigger] self@.blobs[j].path != path@,
            decreases n - i,
        {
            proof {
                assert(self@.blobs[i as int] == self.blobs@[i as int]@);
            }
            if self.blobs[i].path.eq(&needle) {
                return Some(i);
            }
            i += 1;
        }
        None
    }

    /// Index of the user row with the given id.
    pub(crate) fn find_user_by_id(&self, id: i32) -> (r: Option<usize>)
        ensures
            r matches Some(i) ==> i < self.users.len() && self@.users[i as int].id == id as int,
            r is None ==> !crate::model::has_user_id(self@.users, id as int),
    {
        let n = self.users.len();
        let mut i: usize = 0;
        while i < n
            invariant
                n == self.users.len(),
                i <= n,
                forall|j: int| 0 <= j < i ==> #[trigger] self@.users[j].id != id as int,
            decreases n - i,
        {
            proof {
                assert(self@.users[i as int] == self.users@[i as int]@);
            }
            if self.users[i].id == id {
                return Some(i);
            }
            i += 1;
        }
        None
    }

    /// Index of the user row with the given email.
    pub(crate) fn find_user_by_email(&self, email: &str) -> (r: Option<usize>)
        ensures
            r matches Some(i) ==> i < self.users.len() && self@.users[i as int].email == email@,
            r is None ==> !crate::model::has_user_email(self@.users, email@),
    {
        let needle: String = email.to_owned();
        let n = self.users.len();
        let mut i: usize = 0;
        while i < n
            invariant
                n == self.users.len(),
                i <= n,
                needle@ == email@,
                forall|j: int| 0 <= j < i ==> #[trigger] self@.users[j].email != email@,
            decreases n - i,
        {
            proof {
                assert(self@.users[i as int] == self.users@[i as int]@);
            }
            if self.users[i].email.eq(&needle) {
                return Some(i);
            }
            i += 1;
        }
        None
    }

    /// Index of the session row carrying the token.
    pub(crate) fn find_session(&self, token: &str) -> (r: Option<usize>)
        ensures
            r matches Some(i) ==> i < self.sessions.len() && self@.sessions[i as int].id == token@,
            r is None ==> !crate::model::has_session(self@.sessions, token@),
    {
        let needle: String = token.to_owned();
        let n = self.sessions.len();
        let mut i: usize = 0;
        while i < n
            invariant
                n == self.sessions.len(),
                i <= n,
                needle@ == token@,
                forall|j: int| 0 <= j < i ==> #[trigger] self@.sessions[j].id != token@,
            decreases n - i,
        {
            proof {
                assert(self@.sessions[i as int] == self.sessions@[i as int]@);
            }
            if self.sessions[i].id.eq(&needle) {
                return Some(i);
            }
            i += 1;
        }
        None
    }

    /// Index of the project row with the given id.
    pub(crate) fn find_project(&self, project_id: i32) -> (r: Option<usize>)
        ensures
            r matches Some(i) ==> i < self.projects.len() && self@.projects[i as int].project_id
                == project_id as int,
            r is None ==> !crate::model::has_project(self@.projects, project_id as int),
    {
        let n = self.projects.len();
        let mut i: usize = 0;
        while i < n
            invariant
                n == self.projects.len(),
                i <= n,
                forall|j: int|
                    0 <= j < i ==> #[trigger] self@.projects[j].project_id != project_id as int,
            decreases n - i,
        {
            proof {
                assert(self@.projects[i as int] == self.projects@[i as int]@);
            }
            if self.projects[i].project_id == project_id {
                return Some(i);
            }
            i += 1;
        }
        None
    }

    /// Index of the document row with the given id inside the project.
    pub(crate) fn find_document(&self, project_id: i32, document_id: i32) -> (r: Option<usize>)
        ensures
            r matches Some(i) ==> i < self.documents.len() && self@.documents[i as int].document_id
                == document_id as int && self@.documents[i as int].project_id == project_id as int,
            r is None ==> !crate::model::has_document(
                self@.documents,
                project_id as int,
                document_id as int,
            ),
    {
        let n = self.documents.len();
        let mut i: usize = 0;
        while i < n
            invariant
                n == self.documents.len(),
                i <= n,
                forall|j: int|
                    0 <= j < i ==> !(#[trigger] self@.documents[j].document_id == document_id as int
                        && self@.documents[j].project_id == project_id as int),
            decreases n - i,
        {
            proof {
                assert(self@.documents[i as int] == self.documents@[i as int]@);
            }
            if self.documents[i].document_id == document_id && self.documents[i].project_id
                == project_id {
                return Some(i);
            }
            i += 1;
        }
        None
    }

    /// Index of the resource row with the given id inside the project.
    pub(crate) fn find_resource(&self, project_id: i32, resource_id: i32) -> (r: Option<usize>)
        ensures
            r matches Some(i) ==> i < self.resources.len() && self@.resources[i as int].resource_id
                == resource_id as int && self@.resources[i as int].project_id == project_id as int,
            r is None ==> !crate::model::has_resource(
                self@.resources,
                project_id as int,
                resource_id as int,
            ),
    {
        let n = self.resources.len();
        let mut i: usize = 0;
        while i < n
            invariant
                n == self.resources.len(),
                i <= n,
                forall|j: int|
                    0 <= j < i ==> !(#[trigger] self@.resources[j].resource_id == resource_id as int
                        && self@.resources[j].project_id == project_id as int),
            decreases n - i,
        {
            proof {
                assert(self@.resources[i as int] == self.resources@[i as int]@);
            }
            if self.resources[i].resource_id == resource_id && self.resources[i].project_id
                == project_id {
                return Some(i);
            }
            i += 1;
        }
        None
    }

    /// Index of the resource row with the given name inside the project.
    pub(crate) fn find_resource_by_name(&self, project_id: i32, name: &String) -> (r: Option<
        usize,
    >)
        ensures
            r matches Some(i) ==> i < self.resources.len() && self@.resources[i as int].project_id
                == project_id as int && self@.resources[i as int].name == name@,
            r is None ==> !crate::model::has_resource_named(
                self@.resources,
                project_id as int,
                name@,
            ),
    {
        let n = self.resources.len();
        let mut i: usize = 0;
        while i < n
            invariant
                n == self.resources.len(),
                i <= n,
                forall|j: int|
                    0 <= j < i ==> !(#[trigger] self@.resources[j].project_id == project_id as int
                        && self@.resources[j].name == name@),
            decreases n - i,
        {
            proof {
                assert(self@.resources[i as int] == self.resources@[i as int]@);
            }
            if self.resources[i].project_id == project_id && self.resources[i].name.eq(name) {
                return Some(i);
            }
            i += 1;
        }
        None
    }

    /// Index of the share-token row carrying the token.
    pub(crate) fn find_token(&self, token: &str) -> (r: Option<usize>)
        ensures
            r matches Some(i) ==> i < self.tokens.len() && self@.tokens[i as int].token == token@,
            r is None ==> !crate::model::has_token(self@.tokens, token@),
    {
        let needle: String = token.to_owned();
        let n = self.tokens.len();
        let mut i: usize = 0;
        while i < n
            invariant
                n == self.tokens.len(),
                i <= n,
                needle@ == token@,
                forall|j: int| 0 <= j < i ==> #[trigger] self@.tokens[j].token != token@,
            decreases n - i,
        {
            proof {
                assert(self@.tokens[i as int] == self.tokens@[i as int]@);
            }
            if self.tokens[i].token.eq(&needle) {
                return Some(i);
            }
            i += 1;
        }
        None
    }

    /// Whether any session row belongs to the user.
    pub(crate) fn has_session_of_user(&self, user_id: i32) -> (r: bool)
        ensures
            r == crate::model::has_session_for_user(self@.sessions, user_id as int),
    {
        let n = self.sessions.len();
        let mut i: usize = 0;
        while i < n
            invariant
                n == self.sessions.len(),
                i <= n,
                forall|j: int| 0 <= j < i ==> #[trigger] self@.sessions[j].user_id != user_id as int,
            decreases n - i,
        {
            proof {
                assert(self@.sessions[i as int] == self.sessions@[i as int]@);
            }
            if self.sessions[i].user_id == user_id {
                proof {
                    assert(self@.sessions[i as int].user_id == user_id as int);
                }
                return true;
            }
            i += 1;
        }
        false
    }

    /// Writes content at a path. With `create_if_not_exists` unset, a write to
    /// an absent path is refused with `Missing` and nothing changes; otherwise
    /// the path holds exactly the given content afterwards.
    pub fn write_file(&mut self, path: &str, content: &[u8], create_if_not_exists: bool) -> (r:
        Result<(), FileWriteError>)
        requires
            old(self).wf(),
        ensures
            final(self).wf(),
            write_file_post(old(self)@, final(self)@, path@, content@, create_if_not_exists, r),
    {
        if self.failing {
            return Err(FileWriteError::Unknown);
        }
        let found = self.find_blob(path);
        match found {
            Some(i) => {
                proof {
                    lemma_blob_at_first_match(self@.blobs, path@, i as int);
                    lemma_blob_upsert_is_update(self@.blobs, path@, content@, i as int);
                }
                let entry = BlobEntry { path: path.to_owned(), data: slice_to_vec(content) };
                self.blobs[i] = entry;
                proof {
                    assert(self@.blobs =~= blob_upsert(old(self)@.blobs, path@, content@));
                    assert(self@ =~= (StoreModel {
                        blobs: blob_upsert(old(self)@.blobs, path@, content@),
                        ..old(self)@
                    }));
                }
                Ok(())
            },
            None => {
                proof {
                    lemma_blob_at_no_match(self@.blobs, path@);
                }
                if !create_if_not_exists {
                    return Err(FileWriteError::Missing);
                }
                proof {
                    lemma_blob_upsert_is_push(self@.blobs, path@, content@);
                }
                let entry = BlobEntry { path: path.to_owned(), data: slice_to_vec(content) };
                self.blobs.push(entry);
                proof {
                    assert(self@.blobs =~= blob_upsert(old(self)@.blobs, path@, content@));
                    assert(self@ =~= (StoreModel {
                        blobs: blob_upsert(old(self)@.blobs, path@, content@),
                        ..old(self)@
                    }));
                }
                Ok(())
            },
        }
    }

    /// Reads the content at a path; `Missing` when the path is absent.
    pub fn read_file(&self, path: &str) -> (r: Result<Vec<u8>, FileReadError>)
        requires
            self.wf(),
        ensures
            read_file_post(self@, path@, r),
    {
        if self.failing {
            return Err(FileReadError::Unknown);
        }
        let found = self.find_blob(path);
        match found {
            Some(i) => {
                proof {
                    lemma_blob_at_first_match(self@.blobs, path@, i as int);
                }
                let data = self.blobs[i].data.clone();
                proof {
                    assert(data@ =~= self@.blobs[i as int].data);
                }
                Ok(data)
            },
            None => {
                proof {
                    lemma_blob_at_no_match(self@.blobs, path@);
                }
                Err(FileReadError::Missing)
            },
        }
    }
}

} // verus!
