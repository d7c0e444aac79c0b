//! Resources: listing and metadata per project, creation with an empty
//! placeholder blob — refused as `Duplicate` when the project already holds a
//! resource of that name — and content overwrite, size-limited upstream.

use vstd::prelude::*;

use crate::domain::{Resource, ResourceMetadata, ResourceRow};
use crate::filesystem::{blob_path, get_resource_path, FileWriteError};
use crate::model::{
    blob_upsert, has_blob, has_resource, has_resource_named, resources_of_project, StoreModel,
};
use crate::store::MemoryStore;

verus! {

#[derive(Debug, PartialEq, Eq)]
pub enum ResourceInsertError {
    Duplicate,
    Unknown,
}

#[derive(Debug, PartialEq, Eq)]
pub enum ResourceUpdateError {
    Missing,
    Unknown,
}

#[derive(Debug, PartialEq, Eq)]
pub enum ResourceGetError {
    Missing,
    Unknown,
}

/// The unique resource row with the given ids.
pub open spec fn resource_row_of(
    resources: Seq<ResourceRow>,
    project_id: int,
    resource_id: int,
) -> ResourceRow {
    choose|row: ResourceRow|
        #![auto]
        resources.contains(row) && row.project_id == project_id && row.resource_id == resource_id
}

/// Listing a project's resources; an empty list is not an error.
pub open spec fn resource_get_post(
    m: StoreModel,
    project_id: int,
    r: Result<Vec<Resource>, ResourceGetError>,
) -> bool {
    if m.failing {
        r == Err::<Vec<Resource>, ResourceGetError>(ResourceGetError::Unknown)
    } else {
        r matches Ok(v) && v.deep_view() == resources_of_project(m.resources, project_id)
    }
}

/// Metadata lookup by `(project, resource)`.
pub open spec fn resource_get_meta_post(
    m: StoreModel,
    project_id: int,
    resource_id: int,
    r: Result<Resource, ResourceGetError>,
) -> bool {
    if m.failing {
        r == Err::<Resource, ResourceGetError>(ResourceGetError::Unknown)
    } else if !has_resource(m.resources, project_id, resource_id) {
        r == Err::<Resource, ResourceGetError>(ResourceGetError::Missing)
    } else {
        r matches Ok(res) && res@.resource_id == resource_id && res@.project_id == project_id
            && m.resources.contains(res@)
    }
}

/// Creation appends the row under a fresh id and provisions an empty blob; a
/// name already used inside the project is a `Duplicate`.
pub open spec fn resource_insert_post(
    pre: StoreModel,
    post: StoreModel,
    project_id: int,
    name: Seq<char>,
    r: Result<Resource, ResourceInsertError>,
) -> bool {
    if pre.failing || pre.next_id > i32::MAX - 1 {
        r == Err::<Resource, ResourceInsertError>(ResourceInsertError::Unknown) && post == pre
    } else if has_resource_named(pre.resources, project_id, name) {
        r == Err::<Resource, ResourceInsertError>(ResourceInsertError::Duplicate) && post == pre
    } else {
        r matches Ok(res) && res@ == (ResourceRow {
            resource_id: pre.next_id,
            project_id: project_id,
            name: name,
        }) && post == StoreModel {
            resources: pre.resources.push(
                ResourceRow { resource_id: pre.next_id, project_id: project_id, name: name },
            ),
            blobs: blob_upsert(
                pre.blobs,
                blob_path(pre.root, project_id, name),
                Seq::<u8>::empty(),
            ),
            next_id: pre.next_id + 1,
            ..pre
        }
    }
}

/// Overwriting content: `Missing` when the resource row or its blob is
/// absent; otherwise the blob holds exactly the given bytes.
pub open spec fn resource_update_post(
    pre: StoreModel,
    post: StoreModel,
    project_id: int,
    resource_id: int,
    content: Seq<u8>,
    r: Result<(), ResourceUpdateError>,
) -> bool {
    if pre.failing {
        r == Err::<(), ResourceUpdateError>(ResourceUpdateError::Unknown) && post == pre
    } else if !has_resource(pre.resources, project_id, resource_id) {
        r == Err::<(), ResourceUpdateError>(ResourceUpdateError::Missing) && post == pre
    } else {
        let row = resource_row_of(pre.resources, project_id, resource_id);
        let path = blob_path(pre.root, project_id, row.name);
        if !has_blob(pre.blobs, path) {
            r == Err::<(), ResourceUpdateError>(ResourceUpdateError::Missing) && post == pre
        } else {
            r == Ok::<(), ResourceUpdateError>(()) && post == StoreModel {
                blobs: blob_upsert(pre.blobs, path, content),
                ..pre
            }
        }
    }
}

/// Store operations on resources.
pub trait ResourceRepository {
    spec fn resource_inv(&self) -> bool;

    spec fn resource_view(&self) -> StoreModel;

    /// Lists the resources of a project.
    fn get(&self, project_id: i32) -> (r: Result<Vec<Resource>, ResourceGetError>)
        requires
            self.resource_inv(),
        ensures
            resource_get_post(self.resource_view(), project_id as int, r),
    ;

    /// Fetches one resource's metadata.
    fn get_meta(&self, project_id: i32, resource_id: i32) -> (r: Result<Resource, ResourceGetError>)
        requires
            self.resource_inv(),
        ensures
            resource_get_meta_post(
                self.resource_view(),
                project_id as int,
                resource_id as int,
                r,
            ),
    ;

    /// Creates a resource row and its empty placeholder blob.
    fn insert(&mut self, project_id: i32, data: &ResourceMetadata) -> (r: Result<
        Resource,
        ResourceInsertError,
    >)
        requires
            old(self).resource_inv(),
        ensures
            final(self).resource_inv(),
            resource_insert_post(
                old(self).resource_view(),
                final(self).resource_view(),
                project_id as int,
                data.name@,
                r,
            ),
    ;

    /// Overwrites the resource's content; the row and its blob must exist.
    fn update(&mut self, project_id: i32, resource_id: i32, content: &[u8]) -> (r: Result<
        (),
        ResourceUpdateError,
    >)
        requires
            old(self).resource_inv(),
        ensures
            final(self).resource_inv(),
            resource_update_post(
                old(self).resource_view(),
                final(self).resource_view(),
                project_id as int,
                resource_id as int,
                content@,
                r,
            ),
    ;
}

impl ResourceRepository for MemoryStore {
    open spec fn resource_inv(&self) -> bool {
        self.wf()
    }

    open spec fn resource_view(&self) -> StoreModel {
        self@
    }

    fn get(&self, project_id: i32) -> (r: Result<Vec<Resource>, ResourceGetError>) {
        if self.failing {
            return Err(ResourceGetError::Unknown);
        }
        let ghost pred = |res: ResourceRow| res.project_id == project_id as int;
        let n = self.resources.len();
        let mut matching: Vec<Resource> = Vec::new();
        proof {
            reveal(Seq::filter);
            assert(matching.deep_view() =~= Seq::<ResourceRow>::empty());
            assert(self@.resources.subrange(0, 0) =~= Seq::<ResourceRow>::empty());
            assert(self@.resources.subrange(0, 0).filter(pred) =~= Seq::<ResourceRow>::empty());
        }
        let mut i: usize = 0;
        while i < n
            invariant
                n == self.resources.len(),
                i <= n,
                pred == (|res: ResourceRow| res.project_id == project_id as int),
                matching.deep_view() == self@.resources.subrange(0, i as int).filter(pred),
            decreases n - i,
        {
            proof {
                reveal(Seq::filter);
                assert(self@.resources[i as int] == self.resources@[i as int]@);
                let prefix = self@.resources.subrange(0, i as int);
                let nextp = self@.resources.subrange(0, i + 1 as int);
                assert(nextp.drop_last() =~= prefix);
                assert(nextp.last() == self@.resources[i as int]);
            }
            if self.resources[i].project_id == project_id {
                let row = self.resources[i].clone();
                proof {
                    assert(row.deep_view() == self@.resources[i as int]);
                }
                matching.push(row);
                proof {
                    assert(matching.deep_view() =~= self@.resources.subrange(0, i + 1 as int)
                        .filter(pred));
                }
            } else {
                proof {
                    assert(matching.deep_view() =~= self@.resources.subrange(0, i + 1 as int)
                        .filter(pred));
                }
            }
            i += 1;
        }
        proof {
            assert(self@.resources.subrange(0, n as int) =~= self@.resources);
        }
        Ok(matching)
    }

    fn get_meta(&self, project_id: i32, resource_id: i32) -> (r: Result<
        Resource,
        ResourceGetError,
    >) {
        if self.failing {
            return Err(ResourceGetError::Unknown);
        }
        match self.find_resource(project_id, resource_id) {
            Some(i) => {
                let res = self.resources[i].clone();
                proof {
                    assert(self@.resources[i as int] == self.resources@[i as int]@);
                    assert(self@.resources[i as int] == res@);
                    assert(self@.resources.contains(res@));
                }
                Ok(res)
            },
            None => Err(ResourceGetError::Missing),
        }
    }

    fn insert(&mut self, project_id: i32, data: &ResourceMetadata) -> (r: Result<
        Resource,
        ResourceInsertError,
    >) {
        if self.failing || self.next_id > i32::MAX - 1 {
            return Err(ResourceInsertError::Unknown);
        }
        let taken = self.find_resource_by_name(project_id, &data.name);
        if taken.is_some() {
            proof {
                assert(has_resource_named(self@.resources, project_id as int, data.name@));
            }
            return Err(ResourceInsertError::Duplicate);
        }
        let ghost pre = self@;
        let row = Resource {
            resource_id: self.next_id,
            project_id,
            name: data.name.clone(),
        };
        let returned = row.clone();
        let path = get_resource_path(self.root.as_str(), &row);
        self.next_id = self.next_id + 1;
        self.resources.push(row);
        proof {
            assert(self@.resources =~= pre.resources.push(
                ResourceRow {
                    resource_id: pre.next_id,
                    project_id: project_id as int,
                    name: data.name@,
                },
            ));
            assert(self@.users == pre.users);
            assert(self@.sessions == pre.sessions);
            assert(self@.projects == pre.projects);
            assert(self@.documents == pre.documents);
            assert(self@.tokens == pre.tokens);
            assert(self@.grants == pre.grants);
            assert(self@.blobs == pre.blobs);
            assert forall|i: int, j: int| 0 <= i < j < self@.resources.len() implies
                self@.resources[i].resource_id != self@.resources[j].resource_id by {
                if j == self@.resources.len() - 1 {
                    assert(pre.resources[i].resource_id < pre.next_id);
                }
            }
            assert forall|i: int| 0 <= i < self@.projects.len() implies crate::model::has_document(
                self@.documents,
                self@.projects[i].project_id,
                self@.projects[i].main_document_id,
            ) by {
                assert(crate::model::has_document(
                    pre.documents,
                    pre.projects[i].project_id,
                    pre.projects[i].main_document_id,
                ));
            }
            assert(self.wf());
        }
        let empty_content: [u8; 0] = [];
        let write_result = self.write_file(path.as_str(), &empty_content, true);
        proof {
            assert(empty_content@ =~= Seq::<u8>::empty());
            assert(write_result == Ok::<(), FileWriteError>(()));
            assert(self@ =~= (StoreModel {
                resources: pre.resources.push(
                    ResourceRow {
                        resource_id: pre.next_id,
                        project_id: project_id as int,
                        name: data.name@,
                    },
                ),
                blobs: blob_upsert(
                    pre.blobs,
                    blob_path(pre.root, project_id as int, data.name@),
                    Seq::<u8>::empty(),
                ),
                next_id: pre.next_id + 1,
                ..pre
            }));
        }
        Ok(returned)
    }

    fn update(&mut self, project_id: i32, resource_id: i32, content: &[u8]) -> (r: Result<
        (),
        ResourceUpdateError,
    >) {
        if self.failing {
            return Err(ResourceUpdateError::Unknown);
        }
        let found = self.find_resource(project_id, resource_id);
        let i = match found {
            Some(i) => i,
            None => {
                return Err(ResourceUpdateError::Missing);
            },
        };
        proof {
            assert(self@.resources[i as int] == self.resources@[i as int]@);
            let target = self@.resources[i as int];
            assert(self@.resources.contains(target) && target.project_id == project_id as int
                && target.resource_id == resource_id as int);
            let row = resource_row_of(self@.resources, project_id as int, resource_id as int);
            assert(self@.resources.contains(row) && row.project_id == project_id as int
                && row.resource_id == resource_id as int);
            let k = choose|k: int| 0 <= k < self@.resources.len() && self@.resources[k] == row;
            assert(self@.resources[k] == row);
            assert(k == i as int);
            assert(row == target);
        }
        let path = get_resource_path(self.root.as_str(), &self.resources[i]);
        let r = self.write_file(path.as_str(), content, false);
        match r {
            Ok(()) => Ok(()),
            Err(FileWriteError::Missing) => Err(ResourceUpdateError::Missing),
            Err(FileWriteError::Unknown) => Err(ResourceUpdateError::Unknown),
        }
    }
}

} // verus!
