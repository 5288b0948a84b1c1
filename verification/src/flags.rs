//! The flag service's API: projects owned by a user and the boolean feature
//! flags of a project. Storage is the caller's: the functions here validate
//! requests, make the records to store, decide who may see a project's
//! flags, and shape what is answered.

use vstd::prelude::*;
use crate::ids::{is_v4_id, new_random_id};
use crate::text::{chars_of, copy_str};

verus! {

broadcast use vstd::string::group_string_axioms;

/// Errors of the flag routes.
#[derive(Debug)]
pub enum ApiError {
    BadRequest(&'static str),
    /// The project does not exist.
    NotFound,
    /// The project belongs to another user.
    Forbidden,
    /// The database failed.
    Internal,
}

impl ApiError {
    /// The HTTP status code, error message and error code of the JSON answer
    /// (no internal detail is ever included).
    pub fn response(&self) -> (r: (u16, &'static str, Option<&'static str>))
        ensures
            match self {
                ApiError::BadRequest(m) => {
                    &&& r.0 == 400
                    &&& r.1@ == m@
                    &&& r.2 matches Some(c) && c@ == "bad_request"@
                },
                ApiError::NotFound => {
                    &&& r.0 == 404
                    &&& r.1@ == "not found"@
                    &&& r.2 matches Some(c) && c@ == "not_found"@
                },
                ApiError::Forbidden => {
                    &&& r.0 == 403
                    &&& r.1@ == "forbidden"@
                    &&& r.2 matches Some(c) && c@ == "forbidden"@
                },
                ApiError::Internal => {
                    &&& r.0 == 500
                    &&& r.1@ == "internal error"@
                    &&& r.2 is None
                },
            },
    {
        match self {
            ApiError::BadRequest(m) => (400, *m, Some("bad_request")),
            ApiError::NotFound => (404, "not found", Some("not_found")),
            ApiError::Forbidden => (403, "forbidden", Some("forbidden")),
            ApiError::Internal => (500, "internal error", None),
        }
    }
}

/// A project as answered to clients.
#[derive(Debug)]
pub struct ProjectDto {
    pub id: u128,
    pub name: String,
    pub owner_user_id: u128,
}

#[derive(Debug)]
pub struct CreateProjectRequest {
    pub name: String,
}

/// A flag as answered to clients.
#[derive(Debug)]
pub struct FlagDto {
    pub id: u128,
    pub project_id: u128,
    pub key: String,
    pub enabled: bool,
}

#[derive(Debug)]
pub struct CreateFlagRequest {
    pub key: String,
    /// False when absent from the request.
    pub enabled: bool,
}

/// A stored project.
#[derive(Debug)]
pub struct ProjectRow {
    pub id: u128,
    pub name: String,
    pub owner_user_id: u128,
}

/// A stored flag.
#[derive(Debug)]
pub struct FlagRow {
    pub id: u128,
    pub project_id: u128,
    pub key: String,
    pub enabled: bool,
}

/// Names and keys have between 1 and 255 characters.
pub open spec fn name_length_ok(s: Seq<char>) -> bool {
    1 <= s.len() <= 255
}

fn length_in_range(s: &String) -> (r: bool)
    ensures
        r == name_length_ok(s@),
{
    let v = chars_of(s.as_str());
    1 <= v.len() && v.len() <= 255
}

impl CreateProjectRequest {
    /// The request's field rule: a name of 1 to 255 characters.
    pub fn validate(&self) -> (r: bool)
        ensures
            r == name_length_ok(self.name@),
    {
        length_in_range(&self.name)
    }
}

impl CreateFlagRequest {
    /// The request's field rule: a key of 1 to 255 characters.
    pub fn validate(&self) -> (r: bool)
        ensures
            r == name_length_ok(self.key@),
    {
        length_in_range(&self.key)
    }
}

/// The answer for a stored project.
pub fn project_dto(row: &ProjectRow) -> (r: ProjectDto)
    ensures
        r.id == row.id,
        r.name@ == row.name@,
        r.owner_user_id == row.owner_user_id,
{
    ProjectDto { id: row.id, name: copy_str(row.name.as_str()), owner_user_id: row.owner_user_id }
}

/// The answer for a stored flag.
pub fn flag_dto(row: &FlagRow) -> (r: FlagDto)
    ensures
        r.id == row.id,
        r.project_id == row.project_id,
        r.key@ == row.key@,
        r.enabled == row.enabled,
{
    FlagDto {
        id: row.id,
        project_id: row.project_id,
        key: copy_str(row.key.as_str()),
        enabled: row.enabled,
    }
}

/// The answer listing a user's projects: one entry per stored project, in
/// the order given (the store orders them by name).
pub fn list_projects(rows: &Vec<ProjectRow>) -> (r: Vec<ProjectDto>)
    ensures
        r@.len() == rows@.len(),
        forall|i: int|
            0 <= i < rows@.len() ==> {
                &&& #[trigger] r@[i].id == rows@[i].id
                &&& r@[i].name@ == rows@[i].name@
                &&& r@[i].owner_user_id == rows@[i].owner_user_id
            },
{
    let mut r: Vec<ProjectDto> = Vec::new();
    let mut i: usize = 0;
    while i < rows.len()
        invariant
            i <= rows@.len(),
            r@.len() == i,
            forall|j: int|
                0 <= j < i ==> {
                    &&& #[trigger] r@[j].id == rows@[j].id
                    &&& r@[j].name@ == rows@[j].name@
                    &&& r@[j].owner_user_id == rows@[j].owner_user_id
                },
        decreases rows@.len() - i,
    {
        r.push(project_dto(&rows[i]));
        i = i + 1;
    }
    r
}

/// The answer listing a project's flags: one entry per stored flag, in the
/// order given (the store orders them by key).
pub fn list_flags(rows: &Vec<FlagRow>) -> (r: Vec<FlagDto>)
    ensures
        r@.len() == rows@.len(),
        forall|i: int|
            0 <= i < rows@.len() ==> {
                &&& #[trigger] r@[i].id == rows@[i].id
                &&& r@[i].project_id == rows@[i].project_id
                &&& r@[i].key@ == rows@[i].key@
                &&& r@[i].enabled == rows@[i].enabled
            },
{
    let mut r: Vec<FlagDto> = Vec::new();
    let mut i: usize = 0;
    while i < rows.len()
        invariant
            i <= rows@.len(),
            r@.len() == i,
            forall|j: int|
                0 <= j < i ==> {
                    &&& #[trigger] r@[j].id == rows@[j].id
                    &&& r@[j].project_id == rows@[j].project_id
                    &&& r@[j].key@ == rows@[j].key@
                    &&& r@[j].enabled == rows@[j].enabled
                },
        decreases rows@.len() - i,
    {
        r.push(flag_dto(&rows[i]));
        i = i + 1;
    }
    r
}

/// Creating a project: a name that breaks the field rule is refused;
/// otherwise the project to store is made with a fresh id, owned by `owner`.
/// The id is a newly generated version-4 UUID, whatever the request and the
/// owner are.
pub fn create_project(owner: u128, body: CreateProjectRequest) -> (r: Result<ProjectRow, ApiError>)
    ensures
        name_length_ok(body.name@) ==> (r matches Ok(p) && p.name@ == body.name@ && p.owner_user_id
            == owner),
        r matches Ok(p) ==> is_v4_id(p.id),
        !name_length_ok(body.name@) ==> (r matches Err(ApiError::BadRequest(m)) && m@
            == "validation failed"@),
{
    if !body.validate() {
        return Err(ApiError::BadRequest("validation failed"));
    }
    let id = new_random_id();
    Ok(ProjectRow { id, name: body.name, owner_user_id: owner })
}

/// Access to a project's flags for `user`: a project that does not exist is
/// `NotFound`, one owned by another user is `Forbidden`.
pub fn authorize_project(project: Option<ProjectRow>, user: u128) -> (r: Result<
    ProjectRow,
    ApiError,
>)
    ensures
        match project {
            None => r matches Err(ApiError::NotFound),
            Some(p) => if p.owner_user_id == user {
                r == Ok::<ProjectRow, ApiError>(p)
            } else {
                r matches Err(ApiError::Forbidden)
            },
        },
        r is Ok ==> r->Ok_0.owner_user_id == user,
{
    match project {
        None => Err(ApiError::NotFound),
        Some(p) => {
            if p.owner_user_id != user {
                Err(ApiError::Forbidden)
            } else {
                Ok(p)
            }
        },
    }
}

/// First step of creating a flag: a key that breaks the field rule is
/// refused before the project is looked up.
pub fn check_create_flag(body: &CreateFlagRequest) -> (r: Result<(), ApiError>)
    ensures
        name_length_ok(body.key@) ==> r is Ok,
        !name_length_ok(body.key@) ==> (r matches Err(ApiError::BadRequest(m)) && m@
            == "validation failed"@),
{
    if !body.validate() {
        return Err(ApiError::BadRequest("validation failed"));
    }
    Ok(())
}

/// Creating a flag in a project the user may access: the flag to store, with
/// a fresh id and the requested key and state. The id is a newly generated
/// version-4 UUID, whatever the project and the request are (so a project id
/// that is not such an id is never reused for the flag).
pub fn create_flag(project: &ProjectRow, body: CreateFlagRequest) -> (r: FlagRow)
    ensures
        is_v4_id(r.id),
        !is_v4_id(project.id) ==> r.id != project.id,
        r.project_id == project.id,
        r.key@ == body.key@,
        r.enabled == body.enabled,
{
    let id = new_random_id();
    FlagRow { id, project_id: project.id, key: body.key, enabled: body.enabled }
}

} // verus!
