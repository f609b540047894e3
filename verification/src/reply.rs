//! HTTP status codes and the plain replies the handlers answer with.

use vstd::prelude::*;

verus! {

/// The HTTP statuses the API answers with.
#[derive(PartialEq, Eq, Structural, Clone, Copy, Debug)]
pub enum Status {
    Success,
    BadRequest,
    Unauthorized,
    InternalServerError,
}

/// The numeric HTTP code of a status.
pub open spec fn status_code(status: Status) -> u16 {
    match status {
        Status::Success => 200,
        Status::BadRequest => 400,
        Status::Unauthorized => 401,
        Status::InternalServerError => 500,
    }
}

impl Status {
    /// The numeric HTTP code of this status.
    pub fn code(&self) -> (code: u16)
        ensures
            code == status_code(*self),
    {
        match self {
            Status::Success => 200,
            Status::BadRequest => 400,
            Status::Unauthorized => 401,
            Status::InternalServerError => 500,
        }
    }
}

/// A status with a `StateResponse` message.
pub struct Reply {
    pub status: Status,
    pub message: String,
}

/// The message of every refused or failed admin request.
pub open spec fn failed_text() -> Seq<char> {
    seq!['f', 'a', 'i', 'l', 'e', 'd']
}

/// The message of every successful change.
pub open spec fn success_text() -> Seq<char> {
    seq!['s', 'u', 'c', 'c', 'e', 's', 's']
}

/// The message when an image cannot be read.
pub open spec fn image_not_found_text() -> Seq<char> {
    seq!['I', 'm', 'a', 'g', 'e', ' ', 'n', 'o', 't', ' ', 'f', 'o', 'u', 'n', 'd', '.']
}

/// `reply` refuses a request with `status` and the message "failed".
pub open spec fn refused(reply: Reply, status: Status) -> bool {
    reply.status == status && reply.message@ == failed_text()
}

/// A reply with the given status and message.
pub fn respond(status: Status, message: String) -> (reply: Reply)
    ensures
        reply.status == status,
        reply.message@ == message@,
{
    Reply { status, message }
}

/// The reply of a refused or failed request: `status` with message "failed".
pub fn failed(status: Status) -> (reply: Reply)
    ensures
        reply.status == status,
        reply.message@ == failed_text(),
{
    let text = "failed";
    proof {
        reveal_strlit("failed");
    }
    respond(status, text.to_owned())
}

/// The reply of a successful change: 200 with message "success".
pub fn success() -> (reply: Reply)
    ensures
        reply.status == Status::Success,
        reply.message@ == success_text(),
{
    let text = "success";
    proof {
        reveal_strlit("success");
    }
    respond(Status::Success, text.to_owned())
}

/// The reply when the requested image cannot be read: 500 "Image not found.".
pub fn image_not_found() -> (reply: Reply)
    ensures
        reply.status == Status::InternalServerError,
        reply.message@ == image_not_found_text(),
{
    let text = "Image not found.";
    proof {
        reveal_strlit("Image not found.");
    }
    respond(Status::InternalServerError, text.to_owned())
}

/// Where a database statement failed.
#[derive(PartialEq, Eq, Structural, Clone, Copy, Debug)]
pub enum DbStage {
    /// Running a query and reading its rows.
    Query,
    /// Preparing the statement.
    Prepare,
    /// Executing it.
    Execute,
}

/// The status of a database failure at `stage`.
pub open spec fn database_failure_status(stage: DbStage) -> Status {
    match stage {
        DbStage::Query => Status::InternalServerError,
        DbStage::Prepare => Status::InternalServerError,
        DbStage::Execute => Status::BadRequest,
    }
}

/// The reply when the database fails: a query that fails, or a statement that
/// cannot be prepared, is a server error (500); a statement that fails to
/// execute is a bad request (400).
pub fn database_failure(stage: DbStage) -> (reply: Reply)
    ensures
        reply.status == database_failure_status(stage),
        reply.message@ == failed_text(),
{
    match stage {
        DbStage::Query => failed(Status::InternalServerError),
        DbStage::Prepare => failed(Status::InternalServerError),
        DbStage::Execute => failed(Status::BadRequest),
    }
}

} // verus!
