//! Projects: listing by ownership or sharing grant, metadata lookup and
//! rename, and the provisioning workflow that creates a project together with
//! its main document and an empty placeholder blob, atomically.

use vstd::prelude::*;

use crate::domain::{DocumentRow, Project, ProjectData, ProjectRow};
use crate::filesystem::{blob_path, get_document_path};
use crate::model::{
    blob_upsert, grant_count, has_project, has_user_id, list_projects, rename_project,
    repeat_row, StoreModel,
};
use crate::store::MemoryStore;

verus! {

#[derive(Debug, PartialEq, Eq)]
pub enum ProjectInsertError {
    Unknown,
}

#[derive(Debug, PartialEq, Eq)]
pub enum ProjectUpdateError {
    Unknown,
}

#[derive(Debug, PartialEq, Eq)]
pub enum ProjectGetError {
    Missing,
    Unknown,
}

/// The name every provisioned main document carries.
pub open spec fn main_document_name() -> Seq<char> {
    "main.tex"@
}

/// The document row allocated by provisioning: the next id, linked to the
/// project allocated right after it.
pub open spec fn provisioned_document(pre: StoreModel) -> DocumentRow {
    DocumentRow {
        document_id: pre.next_id,
        project_id: pre.next_id + 1,
        name: main_document_name(),
    }
}

/// The project row provisioning returns, stamped with the store clock.
pub open spec fn provisioned_project(pre: StoreModel, owner_id: int, name: Seq<char>) -> ProjectRow {
    ProjectRow {
        project_id: pre.next_id + 1,
        main_document_id: pre.next_id,
        created_at: pre.clock,
        last_modified: pre.clock,
        owner: owner_id,
        name: name,
    }
}

/// The store after successful provisioning: the document row, the project row
/// referencing it, an empty blob at the document's derived path, and two ids
/// consumed. Nothing else moves.
pub open spec fn provision_result(pre: StoreModel, owner_id: int, name: Seq<char>) -> StoreModel {
    StoreModel {
        documents: pre.documents.push(provisioned_document(pre)),
        projects: pre.projects.push(provisioned_project(pre, owner_id, name)),
        blobs: blob_upsert(
            pre.blobs,
            blob_path(pre.root, pre.next_id + 1, main_document_name()),
            Seq::<u8>::empty(),
        ),
        next_id: pre.next_id + 2,
        ..pre
    }
}

/// Provisioning either fails with `Unknown` leaving the store exactly as it
/// was — the store is failing, the owner does not exist, or the id space is
/// exhausted — or returns the provisioned project with the full result
/// committed.
pub open spec fn project_insert_post(
    pre: StoreModel,
    post: StoreModel,
    name: Seq<char>,
    owner_id: int,
    r: Result<Project, ProjectInsertError>,
) -> bool {
    if pre.failing || !has_user_id(pre.users, owner_id) || pre.next_id > i32::MAX - 2 {
        r == Err::<Project, ProjectInsertError>(ProjectInsertError::Unknown) && post == pre
    } else {
        r matches Ok(p) && p@ == provisioned_project(pre, owner_id, name) && post
            == provision_result(pre, owner_id, name)
    }
}

/// Listing returns exactly the join-defined sequence of visible projects.
pub open spec fn project_get_post(
    m: StoreModel,
    user_id: int,
    r: Result<Vec<Project>, ProjectGetError>,
) -> bool {
    if m.failing {
        r == Err::<Vec<Project>, ProjectGetError>(ProjectGetError::Unknown)
    } else {
        r matches Ok(v) && v.deep_view() == list_projects(m.projects, m.grants, user_id)
    }
}

/// Metadata lookup: the row with the id, `Missing` when there is none.
pub open spec fn project_get_meta_post(
    m: StoreModel,
    project_id: int,
    r: Result<Project, ProjectGetError>,
) -> bool {
    if m.failing {
        r == Err::<Project, ProjectGetError>(ProjectGetError::Unknown)
    } else if !has_project(m.projects, project_id) {
        r == Err::<Project, ProjectGetError>(ProjectGetError::Missing)
    } else {
        r matches Ok(p) && p@.project_id == project_id && m.projects.contains(p@)
    }
}

/// Rename: every row with the id takes the new name; renaming an absent id
/// changes nothing; either way the call reports success.
pub open spec fn project_update_post(
    pre: StoreModel,
    post: StoreModel,
    project_id: int,
    name: Seq<char>,
    r: Result<(), ProjectUpdateError>,
) -> bool {
    if pre.failing {
        r == Err::<(), ProjectUpdateError>(ProjectUpdateError::Unknown) && post == pre
    } else {
        r == Ok::<(), ProjectUpdateError>(()) && post == StoreModel {
            projects: rename_project(pre.projects, project_id, name),
            ..pre
        }
    }
}

/// Store operations on projects.
pub trait ProjectRepository {
    spec fn project_inv(&self) -> bool;

    spec fn project_view(&self) -> StoreModel;

    /// Lists the projects the user owns or has been granted.
    fn get(&self, id: i32) -> (r: Result<Vec<Project>, ProjectGetError>)
        requires
            self.project_inv(),
        ensures
            project_get_post(self.project_view(), id as int, r),
    ;

    /// Fetches one project's metadata.
    fn get_meta(&self, project_id: i32) -> (r: Result<Project, ProjectGetError>)
        requires
            self.project_inv(),
        ensures
            project_get_meta_post(self.project_view(), project_id as int, r),
    ;

    /// Provisions a project: document row, project row referencing it, and an
    /// empty placeholder blob, all or nothing.
    fn insert(&mut self, data: &ProjectData, owner_id: i32) -> (r: Result<
        Project,
        ProjectInsertError,
    >)
        requires
            old(self).project_inv(),
        ensures
            final(self).project_inv(),
            project_insert_post(
                old(self).project_view(),
                final(self).project_view(),
                data.name@,
                owner_id as int,
                r,
            ),
    ;

    /// Renames a project.
    fn update(&mut self, id: i32, data: &ProjectData) -> (r: Result<(), ProjectUpdateError>)
        requires
            old(self).project_inv(),
        ensures
            final(self).project_inv(),
            project_update_post(
                old(self).project_view(),
                final(self).project_view(),
                id as int,
                data.name@,
                r,
            ),
    ;
}

impl ProjectRepository for MemoryStore {
    open spec fn project_inv(&self) -> bool {
        self.wf()
    }

    open spec fn project_view(&self) -> StoreModel {
        self@
    }

    fn get(&self, id: i32) -> (r: Result<Vec<Project>, ProjectGetError>) {
        if self.failing {
            return Err(ProjectGetError::Unknown);
        }
        let mut listing: Vec<Project> = Vec::new();
        let n = self.projects.len();
        let g = self.grants.len();
        proof {
            assert(listing.deep_view() =~= Seq::<ProjectRow>::empty());
            assert(self@.projects.subrange(0, 0) =~= Seq::<ProjectRow>::empty());
        }
        let mut i: usize = 0;
        while i < n
            invariant
                n == self.projects.len(),
                g == self.grants.len(),
                i <= n,
                listing.deep_view() == list_projects(
                    self@.projects.subrange(0, i as int),
                    self@.grants,
                    id as int,
                ),
            decreases n - i,
        {
            proof {
                assert(self@.projects[i as int] == self.projects@[i as int]@);
                assert(self@.grants.subrange(0, 0) =~= Seq::<crate::domain::GrantRow>::empty());
            }
            let ghost p_row = self@.projects[i as int];
            let ghost before = listing.deep_view();
            let mut copies: usize = 0;
            let mut j: usize = 0;
            while j < g
                invariant
                    n == self.projects.len(),
                    g == self.grants.len(),
                    i < n,
                    j <= g,
                    copies <= j,
                    p_row == self@.projects[i as int],
                    copies as int == grant_count(
                        self@.grants.subrange(0, j as int),
                        id as int,
                        p_row.project_id,
                    ),
                    listing.deep_view() == before + repeat_row(p_row, copies as int),
                decreases g - j,
            {
                proof {
                    assert(self@.grants[j as int] == self.grants@[j as int]@);
                    assert(self@.grants.subrange(0, j + 1 as int).drop_last() =~= self@.grants
                        .subrange(0, j as int));
                    assert(self@.grants.subrange(0, j + 1 as int).last() == self@.grants[j as int]);
                }
                if self.grants[j].friend_id == id && self.grants[j].project_id
                    == self.projects[i].project_id {
                    let ghost prev = listing.deep_view();
                    let copy = self.projects[i].clone();
                    proof {
                        assert(copy.deep_view() == p_row);
                    }
                    listing.push(copy);
                    copies += 1;
                    proof {
                        assert(listing.deep_view() =~= prev.push(p_row));
                        assert(prev.push(p_row) =~= before + repeat_row(p_row, copies as int));
                    }
                }
                j += 1;
            }
            proof {
                assert(self@.grants.subrange(0, g as int) =~= self@.grants);
            }
            if copies == 0 && self.projects[i].owner == id {
                let copy = self.projects[i].clone();
                proof {
                    assert(copy.deep_view() == p_row);
                }
                listing.push(copy);
                proof {
                    assert(listing.deep_view() =~= before.push(p_row));
                }
            }
            proof {
                let prefix = self@.projects.subrange(0, i as int);
                let next_prefix = self@.projects.subrange(0, i + 1 as int);
                assert(next_prefix.drop_last() =~= prefix);
                assert(next_prefix.last() == p_row);
                if copies > 0 {
                    assert(repeat_row(p_row, copies as int) =~= repeat_row(p_row, copies as int));
                    assert(listing.deep_view() =~= list_projects(
                        next_prefix,
                        self@.grants,
                        id as int,
                    ));
                } else {
                    assert(before + repeat_row(p_row, 0) =~= before);
                    assert(listing.deep_view() =~= list_projects(
                        next_prefix,
                        self@.grants,
                        id as int,
                    ));
                }
            }
            i += 1;
        }
        proof {
            assert(self@.projects.subrange(0, n as int) =~= self@.projects);
        }
        Ok(listing)
    }

    fn get_meta(&self, project_id: i32) -> (r: Result<Project, ProjectGetError>) {
        if self.failing {
            return Err(ProjectGetError::Unknown);
        }
        match self.find_project(project_id) {
            Some(i) => {
                let p = self.projects[i].clone();
                proof {
                    assert(self@.projects[i as int] == self.projects@[i as int]@);
                    assert(self@.projects.contains(p@));
                }
                Ok(p)
            },
            None => Err(ProjectGetError::Missing),
        }
    }

    fn insert(&mut self, data: &ProjectData, owner_id: i32) -> (r: Result<
        Project,
        ProjectInsertError,
    >) {
        if self.failing {
            return Err(ProjectInsertError::Unknown);
        }
        let owner_found = self.find_user_by_id(owner_id);
        if owner_found.is_none() {
            return Err(ProjectInsertError::Unknown);
        }
        proof {
            assert(has_user_id(self@.users, owner_id as int));
        }
        if self.next_id > i32::MAX - 2 {
            return Err(ProjectInsertError::Unknown);
        }
        let ghost pre = self@;
        let document_id = self.next_id;
        let project_id = self.next_id + 1;
        let document = crate::domain::Document {
            document_id,
            project_id,
            name: "main.tex".to_owned(),
        };
        let project = Project {
            project_id,
            main_document_id: document_id,
            created_at: self.clock,
            last_modified: self.clock,
            owner: owner_id,
            name: data.name.clone(),
        };
        let path = get_document_path(self.root.as_str(), &document);
        self.next_id = self.next_id + 2;
        self.documents.push(document);
        self.projects.push(project.clone());
        proof {
            assert(self@.documents =~= pre.documents.push(provisioned_document(pre)));
            assert(self@.projects =~= pre.projects.push(
                provisioned_project(pre, owner_id as int, data.name@),
            ));
            assert forall|i: int, j: int| 0 <= i < j < self@.projects.len() implies
                self@.projects[i].project_id != self@.projects[j].project_id by {
                if j < self@.projects.len() - 1 {
                } else {
                    assert(pre.projects[i].project_id < pre.next_id);
                }
            }
            assert forall|i: int, j: int| 0 <= i < j < self@.documents.len() implies
                self@.documents[i].document_id != self@.documents[j].document_id by {
                if j < self@.documents.len() - 1 {
                } else {
                    assert(pre.documents[i].document_id < pre.next_id);
                }
            }
            assert(self@.users == pre.users);
            assert(self@.sessions == pre.sessions);
            assert(self@.resources == pre.resources);
            assert(self@.tokens == pre.tokens);
            assert(self@.grants == pre.grants);
            assert(self@.blobs == pre.blobs);
            assert forall|i: int| 0 <= i < self@.projects.len() implies crate::model::has_user_id(
                self@.users,
                self@.projects[i].owner,
            ) by {
                if i < self@.projects.len() - 1 {
                    assert(crate::model::has_user_id(pre.users, pre.projects[i].owner));
                } else {
                    assert(has_user_id(pre.users, owner_id as int));
                }
            }
            assert forall|i: int| 0 <= i < self@.projects.len() implies crate::model::has_document(
                self@.documents,
                self@.projects[i].project_id,
                self@.projects[i].main_document_id,
            ) by {
                let nd = self@.documents.len() - 1;
                if i < self@.projects.len() - 1 {
                    assert(crate::model::has_document(
                        pre.documents,
                        pre.projects[i].project_id,
                        pre.projects[i].main_document_id,
                    ));
                    let w = choose|k: int|
                        0 <= k < pre.documents.len() && #[trigger] pre.documents[k].document_id
                            == pre.projects[i].main_document_id && pre.documents[k].project_id
                            == pre.projects[i].project_id;
                    assert(self@.documents[w].document_id == self@.projects[i].main_document_id);
                    assert(self@.documents[w].project_id == self@.projects[i].project_id);
                } else {
                    assert(self@.documents[nd].document_id == self@.projects[i].main_document_id);
                    assert(self@.documents[nd].project_id == self@.projects[i].project_id);
                }
            }
            assert(self.wf());
        }
        let ghost mid = self@;
        let empty_content: [u8; 0] = [];
        let write_result = self.write_file(path.as_str(), &empty_content, true);
        proof {
            assert(empty_content@ =~= Seq::<u8>::empty());
            assert(write_result == Ok::<(), crate::filesystem::FileWriteError>(()));
            assert(self@ =~= provision_result(pre, owner_id as int, data.name@));
        }
        Ok(project)
    }

    fn update(&mut self, id: i32, data: &ProjectData) -> (r: Result<(), ProjectUpdateError>) {
        if self.failing {
            return Err(ProjectUpdateError::Unknown);
        }
        let n = self.projects.len();
        let mut i: usize = 0;
        while i < n
            invariant
                n == self.projects.len(),
                n == old(self)@.projects.len(),
                i <= n,
                self@.root == old(self)@.root,
                self@.users == old(self)@.users,
                self@.sessions == old(self)@.sessions,
                self@.documents == old(self)@.documents,
                self@.resources == old(self)@.resources,
                self@.tokens == old(self)@.tokens,
                self@.grants == old(self)@.grants,
                self@.blobs == old(self)@.blobs,
                self@.next_id == old(self)@.next_id,
                self@.clock == old(self)@.clock,
                self@.failing == old(self)@.failing,
                forall|j: int| i <= j < n ==> self@.projects[j] == old(self)@.projects[j],
                forall|j: int|
                    0 <= j < i ==> self@.projects[j] == (if old(self)@.projects[j].project_id
                        == id as int {
                        ProjectRow { name: data.name@, ..old(self)@.projects[j] }
                    } else {
                        old(self)@.projects[j]
                    }),
            decreases n - i,
        {
            proof {
                assert(self@.projects[i as int] == self.projects@[i as int]@);
            }
            if self.projects[i].project_id == id {
                let ghost snap = self@.projects;
                let row = Project {
                    project_id: self.projects[i].project_id,
                    main_document_id: self.projects[i].main_document_id,
                    created_at: self.projects[i].created_at,
                    last_modified: self.projects[i].last_modified,
                    owner: self.projects[i].owner,
                    name: data.name.clone(),
                };
                self.projects[i] = row;
                proof {
                    assert(self@.projects =~= snap.update(
                        i as int,
                        ProjectRow { name: data.name@, ..old(self)@.projects[i as int] },
                    ));
                }
            }
            i += 1;
        }
        proof {
            assert(self@.projects =~= rename_project(old(self)@.projects, id as int, data.name@));
            assert(self@ =~= (StoreModel {
                projects: rename_project(old(self)@.projects, id as int, data.name@),
                ..old(self)@
            }));
            assert forall|i2: int| 0 <= i2 < self@.projects.len() implies
                crate::model::has_document(
                    self@.documents,
                    self@.projects[i2].project_id,
                    self@.projects[i2].main_document_id,
                ) by {
                assert(crate::model::has_document(
                    old(self)@.documents,
                    old(self)@.projects[i2].project_id,
                    old(self)@.projects[i2].main_document_id,
                ));
            }
            assert forall|i2: int| 0 <= i2 < self@.projects.len() implies
                crate::model::has_user_id(self@.users, self@.projects[i2].owner) by {
                assert(crate::model::has_user_id(old(self)@.users, old(self)@.projects[i2].owner));
            }
        }
        Ok(())
    }
}

} // verus!
