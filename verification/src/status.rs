//! The HTTP status codes this service answers with, and their canonical
//! reason phrases.

use vstd::prelude::*;

verus! {

#[derive(Clone, Copy, PartialEq, Eq, Structural, Debug)]
pub enum Status {
    BadRequest,
    Unauthorized,
    NotFound,
    Conflict,
    UnprocessableEntity,
    InternalServerError,
    PermanentRedirect,
    TemporaryRedirect,
}

/// The canonical reason phrase of a status.
pub open spec fn spec_reason(s: Status) -> Seq<char> {
    match s {
        Status::BadRequest => "Bad Request"@,
        Status::Unauthorized => "Unauthorized"@,
        Status::NotFound => "Not Found"@,
        Status::Conflict => "Conflict"@,
        Status::UnprocessableEntity => "Unprocessable Entity"@,
        Status::InternalServerError => "Internal Server Error"@,
        Status::PermanentRedirect => "Permanent Redirect"@,
        Status::TemporaryRedirect => "Temporary Redirect"@,
    }
}

impl Status {
    /// The numeric status code.
    pub fn code(&self) -> (c: u16)
        ensures
            c == self.spec_code(),
    {
        match self {
            Status::BadRequest => 400,
            Status::Unauthorized => 401,
            Status::NotFound => 404,
            Status::Conflict => 409,
            Status::UnprocessableEntity => 422,
            Status::InternalServerError => 500,
            Status::PermanentRedirect => 308,
            Status::TemporaryRedirect => 307,
        }
    }

    pub open spec fn spec_code(&self) -> u16 {
        match self {
            Status::BadRequest => 400u16,
            Status::Unauthorized => 401u16,
            Status::NotFound => 404u16,
            Status::Conflict => 409u16,
            Status::UnprocessableEntity => 422u16,
            Status::InternalServerError => 500u16,
            Status::PermanentRedirect => 308u16,
            Status::TemporaryRedirect => 307u16,
        }
    }

    /// The canonical reason phrase of the status.
    pub fn reason(&self) -> (r: &'static str)
        ensures
            r@ == spec_reason(*self),
    {
        match self {
            Status::BadRequest => "Bad Request",
            Status::Unauthorized => "Unauthorized",
            Status::NotFound => "Not Found",
            Status::Conflict => "Conflict",
            Status::UnprocessableEntity => "Unprocessable Entity",
            Status::InternalServerError => "Internal Server Error",
            Status::PermanentRedirect => "Permanent Redirect",
            Status::TemporaryRedirect => "Temporary Redirect",
        }
    }
}

} // verus!
