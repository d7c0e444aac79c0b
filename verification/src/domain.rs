//! Record types of the platform: users, sessions, projects, documents,
//! resources, share tokens and sharing grants, together with their
//! mathematical views. Each executable record views to a ghost row whose
//! fields are mathematical integers and character sequences; the store model
//! and all contracts are stated over the rows.

use vstd::prelude::*;

verus! {

/// A single generated integer key returned by the store.
#[derive(Debug, PartialEq, Eq)]
pub struct CrudInt {
    pub id: i32,
}

/// A registered account.
#[derive(Debug, PartialEq, Eq)]
pub struct User {
    pub id: i32,
    pub email: String,
    pub password_hash: String,
}

/// Registration payload: the account without its generated id.
#[derive(Debug, PartialEq, Eq)]
pub struct UserData {
    pub email: String,
    pub password_hash: String,
}

/// A session joined with the user it authenticates.
#[derive(Debug, PartialEq, Eq)]
pub struct Session {
    pub id: String,
    pub user: User,
    pub expires: i64,
}

/// A session row as stored: an opaque token bound to a user id and an
/// advisory expiry timestamp (unix seconds).
#[derive(Debug, PartialEq, Eq)]
pub struct SessionData {
    pub id: String,
    pub user_id: i32,
    pub expires: i64,
}

/// A project row. `main_document_id` names the document provisioned together
/// with the project; timestamps are unix seconds assigned by the store.
#[derive(Debug, PartialEq, Eq)]
pub struct Project {
    pub project_id: i32,
    pub main_document_id: i32,
    pub created_at: i64,
    pub last_modified: i64,
    pub owner: i32,
    pub name: String,
}

/// A project row without its main-document reference.
#[derive(Debug, PartialEq, Eq)]
pub struct ProjectCoreData {
    pub project_id: i32,
    pub created_at: i64,
    pub last_modified: i64,
    pub owner: i32,
    pub name: String,
}

/// Creation / rename payload for a project.
#[derive(Debug, PartialEq, Eq)]
pub struct ProjectData {
    pub name: String,
}

/// A document row; its content lives in the blob store at the path derived
/// from `(project_id, name)`.
#[derive(Debug, PartialEq, Eq)]
pub struct Document {
    pub document_id: i32,
    pub project_id: i32,
    pub name: String,
}

/// Creation / rename payload for a document.
#[derive(Debug, PartialEq, Eq)]
pub struct DocumentData {
    pub name: String,
}

/// A resource row; its content lives in the blob store at the path derived
/// from `(project_id, name)`.
#[derive(Debug, PartialEq, Eq)]
pub struct Resource {
    pub resource_id: i32,
    pub project_id: i32,
    pub name: String,
}

/// Creation payload for a resource; the name must pass validation before it
/// is used as a path segment.
#[derive(Debug, PartialEq, Eq)]
pub struct ResourceMetadata {
    pub name: String,
}

/// An owner-minted share token bound to a project.
#[derive(Debug, PartialEq, Eq)]
pub struct ShareToken {
    pub token: String,
    pub project_id: i32,
}

/// A sharing grant: the redeemer of a share token, linked to the project.
#[derive(Debug, PartialEq, Eq)]
pub struct SharingGrant {
    pub friend_id: i32,
    pub project_id: i32,
}

/// A caller identity carried by a request header.
#[derive(Debug, PartialEq, Eq, Clone, Copy)]
pub struct XUserId(pub i32);

// ---------------------------------------------------------------------------
// Ghost rows: the mathematical image of each record.
// ---------------------------------------------------------------------------

pub struct UserRow {
    pub id: int,
    pub email: Seq<char>,
    pub password_hash: Seq<char>,
}

pub struct SessionRow {
    pub id: Seq<char>,
    pub user_id: int,
    pub expires: int,
}

pub struct SessionJoined {
    pub id: Seq<char>,
    pub user: UserRow,
    pub expires: int,
}

pub struct ProjectRow {
    pub project_id: int,
    pub main_document_id: int,
    pub created_at: int,
    pub last_modified: int,
    pub owner: int,
    pub name: Seq<char>,
}

pub struct DocumentRow {
    pub document_id: int,
    pub project_id: int,
    pub name: Seq<char>,
}

pub struct ResourceRow {
    pub resource_id: int,
    pub project_id: int,
    pub name: Seq<char>,
}

pub struct TokenRow {
    pub token: Seq<char>,
    pub project_id: int,
}

pub struct GrantRow {
    pub friend_id: int,
    pub project_id: int,
}

// ---------------------------------------------------------------------------
// Views
// ---------------------------------------------------------------------------

impl View for User {
    type V = UserRow;

    open spec fn view(&self) -> UserRow {
        UserRow { id: self.id as int, email: self.email@, password_hash: self.password_hash@ }
    }
}

impl DeepView for User {
    type V = UserRow;

    open spec fn deep_view(&self) -> UserRow {
        self.view()
    }
}

impl View for SessionData {
    type V = SessionRow;

    open spec fn view(&self) -> SessionRow {
        SessionRow { id: self.id@, user_id: self.user_id as int, expires: self.expires as int }
    }
}

impl DeepView for SessionData {
    type V = SessionRow;

    open spec fn deep_view(&self) -> SessionRow {
        self.view()
    }
}

impl View for Session {
    type V = SessionJoined;

    open spec fn view(&self) -> SessionJoined {
        SessionJoined { id: self.id@, user: self.user@, expires: self.expires as int }
    }
}

impl View for Project {
    type V = ProjectRow;

    open spec fn view(&self) -> ProjectRow {
        ProjectRow {
            project_id: self.project_id as int,
            main_document_id: self.main_document_id as int,
            created_at: self.created_at as int,
            last_modified: self.last_modified as int,
            owner: self.owner as int,
            name: self.name@,
        }
    }
}

impl DeepView for Project {
    type V = ProjectRow;

    open spec fn deep_view(&self) -> ProjectRow {
        self.view()
    }
}

impl View for Document {
    type V = DocumentRow;

    open spec fn view(&self) -> DocumentRow {
        DocumentRow {
            document_id: self.document_id as int,
            project_id: self.project_id as int,
            name: self.name@,
        }
    }
}

impl DeepView for Document {
    type V = DocumentRow;

    open spec fn deep_view(&self) -> DocumentRow {
        self.view()
    }
}

impl View for Resource {
    type V = ResourceRow;

    open spec fn view(&self) -> ResourceRow {
        ResourceRow {
            resource_id: self.resource_id as int,
            project_id: self.project_id as int,
            name: self.name@,
        }
    }
}

impl DeepView for Resource {
    type V = ResourceRow;

    open spec fn deep_view(&self) -> ResourceRow {
        self.view()
    }
}

impl View for ShareToken {
    type V = TokenRow;

    open spec fn view(&self) -> TokenRow {
        TokenRow { token: self.token@, project_id: self.project_id as int }
    }
}

impl DeepView for ShareToken {
    type V = TokenRow;

    open spec fn deep_view(&self) -> TokenRow {
        self.view()
    }
}

impl View for SharingGrant {
    type V = GrantRow;

    open spec fn view(&self) -> GrantRow {
        GrantRow { friend_id: self.friend_id as int, project_id: self.project_id as int }
    }
}

impl DeepView for SharingGrant {
    type V = GrantRow;

    open spec fn deep_view(&self) -> GrantRow {
        self.view()
    }
}

// ---------------------------------------------------------------------------
// Clones that provably preserve the value.
// ---------------------------------------------------------------------------

impl Clone for User {
    fn clone(&self) -> (res: Self)
        ensures
            res == *self,
    {
        User { id: self.id, email: self.email.clone(), password_hash: self.password_hash.clone() }
    }
}

impl Clone for UserData {
    fn clone(&self) -> (res: Self)
        ensures
            res == *self,
    {
        UserData { email: self.email.clone(), password_hash: self.password_hash.clone() }
    }
}

impl Clone for SessionData {
    fn clone(&self) -> (res: Self)
        ensures
            res == *self,
    {
        SessionData { id: self.id.clone(), user_id: self.user_id, expires: self.expires }
    }
}

impl Clone for Session {
    fn clone(&self) -> (res: Self)
        ensures
            res == *self,
    {
        Session { id: self.id.clone(), user: self.user.clone(), expires: self.expires }
    }
}

impl Clone for Project {
    fn clone(&self) -> (res: Self)
        ensures
            res == *self,
    {
        Project {
            project_id: self.project_id,
            main_document_id: self.main_document_id,
            created_at: self.created_at,
            last_modified: self.last_modified,
            owner: self.owner,
            name: self.name.clone(),
        }
    }
}

impl Clone for ProjectData {
    fn clone(&self) -> (res: Self)
        ensures
            res == *self,
    {
        ProjectData { name: self.name.clone() }
    }
}

impl Clone for Document {
    fn clone(&self) -> (res: Self)
        ensures
            res == *self,
    {
        Document {
            document_id: self.document_id,
            project_id: self.project_id,
            name: self.name.clone(),
        }
    }
}

impl Clone for DocumentData {
    fn clone(&self) -> (res: Self)
        ensures
            res == *self,
    {
        DocumentData { name: self.name.clone() }
    }
}

impl Clone for Resource {
    fn clone(&self) -> (res: Self)
        ensures
            res == *self,
    {
        Resource {
            resource_id: self.resource_id,
            project_id: self.project_id,
            name: self.name.clone(),
        }
    }
}

impl Clone for ResourceMetadata {
    fn clone(&self) -> (res: Self)
        ensures
            res == *self,
    {
        ResourceMetadata { name: self.name.clone() }
    }
}

impl Clone for ShareToken {
    fn clone(&self) -> (res: Self)
        ensures
            res == *self,
    {
        ShareToken { token: self.token.clone(), project_id: self.project_id }
    }
}

impl Clone for SharingGrant {
    fn clone(&self) -> (res: Self)
        ensures
            res == *self,
    {
        SharingGrant { friend_id: self.friend_id, project_id: self.project_id }
    }
}

} // verus!
