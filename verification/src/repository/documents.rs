//! Documents: listing and metadata per project, creation with an empty
//! placeholder blob, rename, and content reads and writes through the blob
//! store. Content writes refuse paths that were never provisioned.

use vstd::prelude::*;
use vstd::string::StrSliceExecFns;
use vstd::utf8::{decode_utf8, encode_utf8, valid_utf8};

use crate::domain::{Document, DocumentData, DocumentRow};
use crate::filesystem::{blob_path, get_document_path, FileReadError, FileWriteError};
use crate::model::{
    blob_at, blob_upsert, documents_of_project, has_blob, has_document, rename_document,
    StoreModel,
};
use crate::store::MemoryStore;

verus! {

#[derive(Debug, PartialEq, Eq)]
pub enum DocumentInsertError {
    Unknown,
}

#[derive(Debug, PartialEq, Eq)]
pub enum DocumentUpdateError {
    Missing,
    Unknown,
}

#[derive(Debug, PartialEq, Eq)]
pub enum DocumentGetError {
    Missing,
    Unknown,
}

/// Listing a project's documents; a project without any is reported
/// `Missing`.
pub open spec fn document_get_post(
    m: StoreModel,
    project_id: int,
    r: Result<Vec<Document>, DocumentGetError>,
) -> bool {
    if m.failing {
        r == Err::<Vec<Document>, DocumentGetError>(DocumentGetError::Unknown)
    } else if documents_of_project(m.documents, project_id).len() == 0 {
        r == Err::<Vec<Document>, DocumentGetError>(DocumentGetError::Missing)
    } else {
        r matches Ok(v) && v.deep_view() == documents_of_project(m.documents, project_id)
    }
}

/// Metadata lookup by `(project, document)`.
pub open spec fn document_get_meta_post(
    m: StoreModel,
    project_id: int,
    document_id: int,
    r: Result<Document, DocumentGetError>,
) -> bool {
    if m.failing {
        r == Err::<Document, DocumentGetError>(DocumentGetError::Unknown)
    } else if !has_document(m.documents, project_id, document_id) {
        r == Err::<Document, DocumentGetError>(DocumentGetError::Missing)
    } else {
        r matches Ok(d) && d@.document_id == document_id && d@.project_id == project_id
            && m.documents.contains(d@)
    }
}

/// Creation appends the row under a fresh id and provisions an empty blob at
/// the derived path.
pub open spec fn document_insert_post(
    pre: StoreModel,
    post: StoreModel,
    project_id: int,
    name: Seq<char>,
    r: Result<(), DocumentInsertError>,
) -> bool {
    if pre.failing || pre.next_id > i32::MAX - 1 {
        r == Err::<(), DocumentInsertError>(DocumentInsertError::Unknown) && post == pre
    } else {
        r == Ok::<(), DocumentInsertError>(()) && post == StoreModel {
            documents: pre.documents.push(
                DocumentRow { document_id: pre.next_id, project_id: project_id, name: name },
            ),
            blobs: blob_upsert(
                pre.blobs,
                blob_path(pre.root, project_id, name),
                Seq::<u8>::empty(),
            ),
            next_id: pre.next_id + 1,
            ..pre
        }
    }
}

/// Rename: every row with the id takes the new name; renaming an absent id
/// changes nothing; either way the call reports success. The stored blob
/// stays at the old derived path.
pub open spec fn document_update_post(
    pre: StoreModel,
    post: StoreModel,
    document_id: int,
    name: Seq<char>,
    r: Result<(), DocumentUpdateError>,
) -> bool {
    if pre.failing {
        r == Err::<(), DocumentUpdateError>(DocumentUpdateError::Unknown) && post == pre
    } else {
        r == Ok::<(), DocumentUpdateError>(()) && post == StoreModel {
            documents: rename_document(pre.documents, document_id, name),
            ..pre
        }
    }
}

/// Reading content at the document's derived path: `Missing` when no blob is
/// there, `Unknown` when the bytes are not text.
pub open spec fn document_read_post(
    m: StoreModel,
    d: DocumentRow,
    r: Result<String, DocumentGetError>,
) -> bool {
    if m.failing {
        r == Err::<String, DocumentGetError>(DocumentGetError::Unknown)
    } else {
        match blob_at(m.blobs, blob_path(m.root, d.project_id, d.name)) {
            None => r == Err::<String, DocumentGetError>(DocumentGetError::Missing),
            Some(bytes) => if valid_utf8(bytes) {
                r matches Ok(s) && s@ == decode_utf8(bytes)
            } else {
                r == Err::<String, DocumentGetError>(DocumentGetError::Unknown)
            },
        }
    }
}

/// Overwriting content: refused with `Missing` when the path was never
/// provisioned, so an update cannot silently create a document.
pub open spec fn document_write_post(
    pre: StoreModel,
    post: StoreModel,
    d: DocumentRow,
    content: Seq<char>,
    r: Result<(), DocumentUpdateError>,
) -> bool {
    if pre.failing {
        r == Err::<(), DocumentUpdateError>(DocumentUpdateError::Unknown) && post == pre
    } else if !has_blob(pre.blobs, blob_path(pre.root, d.project_id, d.name)) {
        r == Err::<(), DocumentUpdateError>(DocumentUpdateError::Missing) && post == pre
    } else {
        r == Ok::<(), DocumentUpdateError>(()) && post == StoreModel {
            blobs: blob_upsert(
                pre.blobs,
                blob_path(pre.root, d.project_id, d.name),
                encode_utf8(content),
            ),
            ..pre
        }
    }
}

/// Store operations on documents.
pub trait DocumentRepository {
    spec fn document_inv(&self) -> bool;

    spec fn document_view(&self) -> StoreModel;

    /// Lists the documents of a project.
    fn get(&self, project_id: i32) -> (r: Result<Vec<Document>, DocumentGetError>)
        requires
            self.document_inv(),
        ensures
            document_get_post(self.document_view(), project_id as int, r),
    ;

    /// Fetches one document's metadata.
    fn get_meta(&self, project_id: i32, document_id: i32) -> (r: Result<Document, DocumentGetError>)
        requires
            self.document_inv(),
        ensures
            document_get_meta_post(
                self.document_view(),
                project_id as int,
                document_id as int,
                r,
            ),
    ;

    /// Creates a document row and its empty placeholder blob.
    fn insert(&mut self, project_id: i32, data: &DocumentData) -> (r: Result<
        (),
        DocumentInsertError,
    >)
        requires
            old(self).document_inv(),
        ensures
            final(self).document_inv(),
            document_insert_post(
                old(self).document_view(),
                final(self).document_view(),
                project_id as int,
                data.name@,
                r,
            ),
    ;

    /// Renames a document.
    fn update(&mut self, document_id: i32, data: &DocumentData) -> (r: Result<
        (),
        DocumentUpdateError,
    >)
        requires
            old(self).document_inv(),
        ensures
            final(self).document_inv(),
            document_update_post(
                old(self).document_view(),
                final(self).document_view(),
                document_id as int,
                data.name@,
                r,
            ),
    ;

    /// Reads the document's content.
    fn read_file(&self, document: &Document) -> (r: Result<String, DocumentGetError>)
        requires
            self.document_inv(),
        ensures
            document_read_post(self.document_view(), document@, r),
    ;

    /// Overwrites the document's content; the path must exist.
    fn write_file(&mut self, document: &Document, content: &str) -> (r: Result<
        (),
        DocumentUpdateError,
    >)
        requires
            old(self).document_inv(),
        ensures
            final(self).document_inv(),
            document_write_post(
                old(self).document_view(),
                final(self).document_view(),
                document@,
                content@,
                r,
            ),
    ;
}

/// Relies on String::from_utf8: it succeeds exactly on valid UTF-8 and
/// returns the decoded character sequence.
#[verifier::external_body]
fn bytes_to_string(v: Vec<u8>) -> (r: Option<String>)
    ensures
        r matches Some(s) ==> valid_utf8(v@) && s@ == decode_utf8(v@),
        r is None ==> !valid_utf8(v@),
{
    match String::from_utf8(v) {
        Ok(s) => Some(s),
        Err(_) => None,
    }
}

impl DocumentRepository for MemoryStore {
    open spec fn document_inv(&self) -> bool {
        self.wf()
    }

    open spec fn document_view(&self) -> StoreModel {
        self@
    }

    fn get(&self, project_id: i32) -> (r: Result<Vec<Document>, DocumentGetError>) {
        if self.failing {
            return Err(DocumentGetError::Unknown);
        }
        let ghost pred = |d: DocumentRow| d.project_id == project_id as int;
        let n = self.documents.len();
        let mut matching: Vec<Document> = Vec::new();
        proof {
            reveal(Seq::filter);
            assert(matching.deep_view() =~= Seq::<DocumentRow>::empty());
            assert(self@.documents.subrange(0, 0) =~= Seq::<DocumentRow>::empty());
            assert(self@.documents.subrange(0, 0).filter(pred) =~= Seq::<DocumentRow>::empty());
        }
        let mut i: usize = 0;
        while i < n
            invariant
                n == self.documents.len(),
                i <= n,
                pred == (|d: DocumentRow| d.project_id == project_id as int),
                matching.deep_view() == self@.documents.subrange(0, i as int).filter(pred),
            decreases n - i,
        {
            proof {
                reveal(Seq::filter);
                assert(self@.documents[i as int] == self.documents@[i as int]@);
                let prefix = self@.documents.subrange(0, i as int);
                let nextp = self@.documents.subrange(0, i + 1 as int);
                assert(nextp.drop_last() =~= prefix);
                assert(nextp.last() == self@.documents[i as int]);
            }
            if self.documents[i].project_id == project_id {
                let row = self.documents[i].clone();
                proof {
                    assert(row.deep_view() == self@.documents[i as int]);
                }
                matching.push(row);
                proof {
                    assert(matching.deep_view() =~= self@.documents.subrange(0, i + 1 as int)
                        .filter(pred));
                }
            } else {
                proof {
                    assert(matching.deep_view() =~= self@.documents.subrange(0, i + 1 as int)
                        .filter(pred));
                }
            }
            i += 1;
        }
        proof {
            assert(self@.documents.subrange(0, n as int) =~= self@.documents);
        }
        if matching.is_empty() {
            proof {
                assert(documents_of_project(self@.documents, project_id as int).len() == 0);
            }
            Err(DocumentGetError::Missing)
        } else {
            Ok(matching)
        }
    }

    fn get_meta(&self, project_id: i32, document_id: i32) -> (r: Result<
        Document,
        DocumentGetError,
    >) {
        if self.failing {
            return Err(DocumentGetError::Unknown);
        }
        match self.find_document(project_id, document_id) {
            Some(i) => {
                let d = self.documents[i].clone();
                proof {
                    assert(self@.documents[i as int] == self.documents@[i as int]@);
                    assert(self@.documents[i as int] == d@);
                    assert(self@.documents.contains(d@));
                }
                Ok(d)
            },
            None => Err(DocumentGetError::Missing),
        }
    }

    fn insert(&mut self, project_id: i32, data: &DocumentData) -> (r: Result<
        (),
        DocumentInsertError,
    >) {
        if self.failing || self.next_id > i32::MAX - 1 {
            return Err(DocumentInsertError::Unknown);
        }
        let ghost pre = self@;
        let row = Document {
            document_id: self.next_id,
            project_id,
            name: data.name.clone(),
        };
        let path = get_document_path(self.root.as_str(), &row);
        self.next_id = self.next_id + 1;
        self.documents.push(row);
        proof {
            assert(self@.documents =~= pre.documents.push(
                DocumentRow {
                    document_id: pre.next_id,
                    project_id: project_id as int,
                    name: data.name@,
                },
            ));
            assert(self@.users == pre.users);
            assert(self@.sessions == pre.sessions);
            assert(self@.projects == pre.projects);
            assert(self@.resources == pre.resources);
            assert(self@.tokens == pre.tokens);
            assert(self@.grants == pre.grants);
            assert(self@.blobs == pre.blobs);
            assert forall|i: int, j: int| 0 <= i < j < self@.documents.len() implies
                self@.documents[i].document_id != self@.documents[j].document_id by {
                if j == self@.documents.len() - 1 {
                    assert(pre.documents[i].document_id < pre.next_id);
                }
            }
            assert forall|i: int| 0 <= i < self@.projects.len() implies crate::model::has_document(
                self@.documents,
                self@.projects[i].project_id,
                self@.projects[i].main_document_id,
            ) by {
                assert(crate::model::has_document(
                    pre.documents,
                    pre.projects[i].project_id,
                    pre.projects[i].main_document_id,
                ));
                let w = choose|k: int|
                    0 <= k < pre.documents.len() && #[trigger] pre.documents[k].document_id
                        == pre.projects[i].main_document_id && pre.documents[k].project_id
                        == pre.projects[i].project_id;
                assert(self@.documents[w].document_id == self@.projects[i].main_document_id);
                assert(self@.documents[w].project_id == self@.projects[i].project_id);
            }
            assert(self.wf());
        }
        let empty_content: [u8; 0] = [];
        let write_result = self.write_file(path.as_str(), &empty_content, true);
        proof {
            assert(empty_content@ =~= Seq::<u8>::empty());
            assert(write_result == Ok::<(), FileWriteError>(()));
            assert(self@ =~= (StoreModel {
                documents: pre.documents.push(
                    DocumentRow {
                        document_id: pre.next_id,
                        project_id: project_id as int,
                        name: data.name@,
                    },
                ),
                blobs: blob_upsert(
                    pre.blobs,
                    blob_path(pre.root, project_id as int, data.name@),
                    Seq::<u8>::empty(),
                ),
                next_id: pre.next_id + 1,
                ..pre
            }));
        }
        Ok(())
    }

    fn update(&mut self, document_id: i32, data: &DocumentData) -> (r: Result<
        (),
        DocumentUpdateError,
    >) {
        if self.failing {
            return Err(DocumentUpdateError::Unknown);
        }
        let n = self.documents.len();
        let mut i: usize = 0;
        while i < n
            invariant
                n == self.documents.len(),
                n == old(self)@.documents.len(),
                i <= n,
                self@.root == old(self)@.root,
                self@.users == old(self)@.users,
                self@.sessions == old(self)@.sessions,
                self@.projects == old(self)@.projects,
                self@.resources == old(self)@.resources,
                self@.tokens == old(self)@.tokens,
                self@.grants == old(self)@.grants,
                self@.blobs == old(self)@.blobs,
                self@.next_id == old(self)@.next_id,
                self@.clock == old(self)@.clock,
                self@.failing == old(self)@.failing,
                forall|j: int| i <= j < n ==> self@.documents[j] == old(self)@.documents[j],
                forall|j: int|
                    0 <= j < i ==> self@.documents[j] == (if old(self)@.documents[j].document_id
                        == document_id as int {
                        DocumentRow { name: data.name@, ..old(self)@.documents[j] }
                    } else {
                        old(self)@.documents[j]
                    }),
            decreases n - i,
        {
            proof {
                assert(self@.documents[i as int] == self.documents@[i as int]@);
            }
            if self.documents[i].document_id == document_id {
                let ghost snap = self@.documents;
                let row = Document {
                    document_id: self.documents[i].document_id,
                    project_id: self.documents[i].project_id,
                    name: data.name.clone(),
                };
                self.documents[i] = row;
                proof {
                    assert(self@.documents =~= snap.update(
                        i as int,
                        DocumentRow { name: data.name@, ..old(self)@.documents[i as int] },
                    ));
                }
            }
            i += 1;
        }
        proof {
            assert(self@.documents =~= rename_document(
                old(self)@.documents,
                document_id as int,
                data.name@,
            ));
            assert(self@ =~= (StoreModel {
                documents: rename_document(old(self)@.documents, document_id as int, data.name@),
                ..old(self)@
            }));
            assert forall|i2: int| 0 <= i2 < self@.projects.len() implies
                crate::model::has_document(
                    self@.documents,
                    self@.projects[i2].project_id,
                    self@.projects[i2].main_document_id,
                ) by {
                assert(crate::model::has_document(
                    old(self)@.documents,
                    old(self)@.projects[i2].project_id,
                    old(self)@.projects[i2].main_document_id,
                ));
                let w = choose|k: int|
                    0 <= k < old(self)@.documents.len() && #[trigger] old(
                        self,
                    )@.documents[k].document_id == old(self)@.projects[i2].main_document_id && old(
                        self,
                    )@.documents[k].project_id == old(self)@.projects[i2].project_id;
                assert(self@.documents[w].document_id == self@.projects[i2].main_document_id);
                assert(self@.documents[w].project_id == self@.projects[i2].project_id);
            }
        }
        Ok(())
    }

    fn read_file(&self, document: &Document) -> (r: Result<String, DocumentGetError>) {
        if self.failing {
            return Err(DocumentGetError::Unknown);
        }
        let path = get_document_path(self.root.as_str(), document);
        let bytes = match self.read_file(path.as_str()) {
            Ok(bytes) => bytes,
            Err(FileReadError::Missing) => {
                return Err(DocumentGetError::Missing);
            },
            Err(FileReadError::Unknown) => {
                return Err(DocumentGetError::Unknown);
            },
        };
        match bytes_to_string(bytes) {
            Some(s) => Ok(s),
            None => Err(DocumentGetError::Unknown),
        }
    }

    fn write_file(&mut self, document: &Document, content: &str) -> (r: Result<
        (),
        DocumentUpdateError,
    >) {
        if self.failing {
            return Err(DocumentUpdateError::Unknown);
        }
        let path = get_document_path(self.root.as_str(), document);
        let r = self.write_file(path.as_str(), content.as_bytes(), false);
        match r {
            Ok(()) => Ok(()),
            Err(FileWriteError::Missing) => Err(DocumentUpdateError::Missing),
            Err(FileWriteError::Unknown) => Err(DocumentUpdateError::Unknown),
        }
    }
}

} // verus!
