//! API error vocabulary: every handler error maps to one HTTP status and
//! one problem-type URI.

use vstd::prelude::*;

use crate::slicer::SlicerError;

verus! {

#[verifier::external_type_specification]
#[verifier::external_body]
pub struct ExAnyhowError(anyhow::Error);

/// An error answered by the HTTP API as `application/problem+json`.
#[derive(Debug)]
pub enum ApiError {
    NotFound(String),
    BadRequest(String),
    Conflict(String),
    PreconditionFailed(String),
    NotImplemented(&'static str),
    Internal(anyhow::Error),
    Db(sqlx::Error),
    Slicer(SlicerError),
}

impl ApiError {
    /// The HTTP status answering each error.
    pub open spec fn spec_status(&self) -> u16 {
        match self {
            ApiError::NotFound(_) => 404,
            ApiError::BadRequest(_) => 400,
            ApiError::Conflict(_) => 409,
            ApiError::PreconditionFailed(_) => 412,
            ApiError::NotImplemented(_) => 501,
            ApiError::Internal(_) | ApiError::Db(_) | ApiError::Slicer(_) => 500,
        }
    }

    /// The problem type URI of each error.
    pub open spec fn spec_type_uri(&self) -> Seq<char> {
        match self {
            ApiError::NotFound(_) => "/v1/errors/not-found"@,
            ApiError::BadRequest(_) => "/v1/errors/bad-request"@,
            ApiError::Conflict(_) => "/v1/errors/conflict"@,
            ApiError::PreconditionFailed(_) => "/v1/errors/precondition-failed"@,
            ApiError::NotImplemented(_) => "/v1/errors/not-implemented"@,
            ApiError::Internal(_) => "/v1/errors/internal"@,
            ApiError::Db(_) => "/v1/errors/db"@,
            ApiError::Slicer(_) => "/v1/errors/slicer"@,
        }
    }

    /// The HTTP status code of the error.
    pub fn status(&self) -> (r: u16)
        ensures
            r == self.spec_status(),
    {
        match self {
            ApiError::NotFound(_) => 404,
            ApiError::BadRequest(_) => 400,
            ApiError::Conflict(_) => 409,
            ApiError::PreconditionFailed(_) => 412,
            ApiError::NotImplemented(_) => 501,
            ApiError::Internal(_) | ApiError::Db(_) | ApiError::Slicer(_) => 500,
        }
    }

    /// The problem-type URI of the error.
    pub fn type_uri(&self) -> (r: &'static str)
        ensures
            r@ == self.spec_type_uri(),
    {
        match self {
            ApiError::NotFound(_) => "/v1/errors/not-found",
            ApiError::BadRequest(_) => "/v1/errors/bad-request",
            ApiError::Conflict(_) => "/v1/errors/conflict",
            ApiError::PreconditionFailed(_) => "/v1/errors/precondition-failed",
            ApiError::NotImplemented(_) => "/v1/errors/not-implemented",
            ApiError::Internal(_) => "/v1/errors/internal",
            ApiError::Db(_) => "/v1/errors/db",
            ApiError::Slicer(_) => "/v1/errors/slicer",
        }
    }
}

/// The HTTP answer to each error: a missing resource is 404, a malformed
/// request 400, a state conflict 409, a failed If-Match 412, an unbuilt
/// endpoint 501, and every internal, database or slicer failure 500; client
/// errors are in the 4xx range and the others in the 5xx range.
pub proof fn lemma_api_error_statuses(e: ApiError)
    ensures
        e is NotFound ==> e.spec_status() == 404,
        e is BadRequest ==> e.spec_status() == 400,
        e is Conflict ==> e.spec_status() == 409,
        e is PreconditionFailed ==> e.spec_status() == 412,
        e is NotImplemented ==> e.spec_status() == 501,
        (e is Internal || e is Db || e is Slicer) ==> e.spec_status() == 500,
        (e is NotFound || e is BadRequest || e is Conflict || e is PreconditionFailed) <==> (400
            <= e.spec_status() < 500),
{
}

/// The problem type URI of each error names the error's kind under
/// `/v1/errors/`.
pub proof fn lemma_api_error_type_uris(e: ApiError)
    ensures
        e is NotFound ==> e.spec_type_uri() == "/v1/errors/not-found"@,
        e is BadRequest ==> e.spec_type_uri() == "/v1/errors/bad-request"@,
        e is Conflict ==> e.spec_type_uri() == "/v1/errors/conflict"@,
        e is PreconditionFailed ==> e.spec_type_uri() == "/v1/errors/precondition-failed"@,
        e is NotImplemented ==> e.spec_type_uri() == "/v1/errors/not-implemented"@,
        e is Internal ==> e.spec_type_uri() == "/v1/errors/internal"@,
        e is Db ==> e.spec_type_uri() == "/v1/errors/db"@,
        e is Slicer ==> e.spec_type_uri() == "/v1/errors/slicer"@,
{
}

} // verus!
