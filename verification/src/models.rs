//! The values the endpoints read and answer with.

use vstd::prelude::*;
use vstd::string::StringExecFns;

verus! {

/// The HTTP statuses the API answers with.
#[derive(PartialEq, Eq, Structural, Clone, Copy, Debug)]
pub enum Status {
    Success,
    BadRequest,
    Unauthorized,
    Forbidden,
    NotFound,
    InternalServerError,
}

/// The numeric HTTP code of a status.
pub open spec fn status_code(s: Status) -> u16 {
    match s {
        Status::Success => 200,
        Status::BadRequest => 400,
        Status::Unauthorized => 401,
        Status::Forbidden => 403,
        Status::NotFound => 404,
        Status::InternalServerError => 500,
    }
}

impl Status {
    /// The numeric HTTP code.
    pub fn code(&self) -> (c: u16)
        ensures
            c == status_code(*self),
    {
        match self {
            Status::Success => 200,
            Status::BadRequest => 400,
            Status::Unauthorized => 401,
            Status::Forbidden => 403,
            Status::NotFound => 404,
            Status::InternalServerError => 500,
        }
    }
}

/// The JSON body of most answers: whether the request succeeded and a
/// message for the user.
pub struct ApiResponse {
    pub success: bool,
    pub message: String,
}

/// A status together with the body that goes with it.
pub struct Reply {
    pub status: Status,
    pub body: ApiResponse,
}

/// `r` answers with `status` and `message`, and reports success exactly
/// when the status is 200.
pub open spec fn reply_says(r: Reply, status: Status, message: Seq<char>) -> bool {
    &&& r.status == status
    &&& r.body.success == (status == Status::Success)
    &&& r.body.message@ == message
}

/// The answer with `status` and `message`.
pub fn make_reply(status: Status, message: &str) -> (r: Reply)
    ensures
        reply_says(r, status, message@),
{
    Reply { status, body: ApiResponse { success: status == Status::Success, message: String::from_str(message) } }
}

/// The answer with `status` and an owned `message`.
pub fn make_reply_owned(status: Status, message: String) -> (r: Reply)
    ensures
        reply_says(r, status, message@),
{
    Reply { status, body: ApiResponse { success: status == Status::Success, message } }
}

/// What `GET /` reports about the service.
pub struct ApiStatus {
    pub name: String,
    pub status: String,
    pub version: String,
}

/// The claims of a session token: the user's id and the expiry, in seconds
/// since the Unix epoch.
#[derive(PartialEq, Eq, Structural, Clone, Copy, Debug)]
pub struct Claims {
    pub sub: i32,
    pub exp: usize,
}

/// The body of `POST /mood`.
pub struct MoodRequest {
    pub text: String,
}

/// The body of `POST /register` and `PUT /user/{id}`.
pub struct User {
    pub name: String,
    pub age: u8,
    pub relationship_years: u8,
    pub password: String,
}

/// What the API shows of a user.
pub struct PublicUser {
    pub name: String,
    pub age: u8,
    pub relationship_years: u8,
}

/// The body of `POST /login`.
pub struct LoginRequest {
    pub name: String,
    pub password: String,
}

/// The body of a password change.
pub struct ChangePasswordRequest {
    pub old_password: String,
    pub new_password: String,
}

/// A failed database operation.
#[derive(PartialEq, Eq, Structural, Clone, Copy, Debug)]
pub struct DbError;

/// A row of `users` as the queries read it: the integer columns come back
/// as `i32`.
pub struct UserRow {
    pub name: String,
    pub age: i32,
    pub relationship_years: i32,
}

/// `u` shows `row`: the name as stored, the integer columns cut to their
/// low byte.
pub open spec fn shows_row(u: PublicUser, row: UserRow) -> bool {
    &&& u.name@ == row.name@
    &&& u.age == row.age as u8
    &&& u.relationship_years == row.relationship_years as u8
}

/// The public view of a stored row.
pub fn public_user(row: &UserRow) -> (u: PublicUser)
    ensures
        shows_row(u, *row),
{
    PublicUser {
        name: row.name.clone(),
        age: row.age as u8,
        relationship_years: row.relationship_years as u8,
    }
}

} // verus!
