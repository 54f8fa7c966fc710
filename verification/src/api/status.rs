//! The HTTP statuses the API answers with, and how a failed repository call
//! is classified.
use vstd::prelude::*;

verus! {

/// An HTTP status the API answers with.
#[derive(Clone, Copy, PartialEq, Eq, Structural, Debug)]
pub enum Status {
    Success,
    Created,
    NoContent,
    BadRequest,
    Unauthorized,
    Forbidden,
    NotFound,
    Conflict,
    UnprocessableEntity,
    InternalServerError,
}

/// The numeric code of a status.
pub open spec fn code_of(s: Status) -> u16 {
    match s {
        Status::Success => 200,
        Status::Created => 201,
        Status::NoContent => 204,
        Status::BadRequest => 400,
        Status::Unauthorized => 401,
        Status::Forbidden => 403,
        Status::NotFound => 404,
        Status::Conflict => 409,
        Status::UnprocessableEntity => 422,
        Status::InternalServerError => 500,
    }
}

impl Status {
    /// The numeric HTTP code.
    pub fn code(&self) -> (c: u16)
        ensures
            c == code_of(*self),
    {
        match self {
            Status::Success => 200,
            Status::Created => 201,
            Status::NoContent => 204,
            Status::BadRequest => 400,
            Status::Unauthorized => 401,
            Status::Forbidden => 403,
            Status::NotFound => 404,
            Status::Conflict => 409,
            Status::UnprocessableEntity => 422,
            Status::InternalServerError => 500,
        }
    }
}

/// Why a repository call failed, as far as the API distinguishes it.
#[derive(Clone, Copy, PartialEq, Eq, Structural, Debug)]
pub enum RepositoryErrorKind {
    /// The row the call needed does not exist.
    NotFound,
    /// A unique constraint refused the row.
    UniqueViolation,
    /// A foreign-key constraint refused the row.
    ForeignKeyViolation,
    /// Anything else: the connection, the pool, another query error.
    Other,
}

} // verus!
