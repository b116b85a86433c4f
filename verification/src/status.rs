//! Response statuses and errors.
use vstd::prelude::*;

verus! {

/// The status of a response that the server gives on its own account.
#[derive(Debug, Clone, Copy, PartialEq, Eq, Structural)]
pub enum Status {
    BadRequest,
    NotFound,
    MethodNotAllowed,
    InternalServerError,
}

impl Status {
    /// The number that stands for the status in a response.
    pub open spec fn spec_code(self) -> u16 {
        match self {
            Status::BadRequest => 400,
            Status::NotFound => 404,
            Status::MethodNotAllowed => 405,
            Status::InternalServerError => 500,
        }
    }

    /// Returns the number that stands for the status in a response.
    pub fn code(&self) -> (r: u16)
        ensures
            r == self.spec_code(),
            *self is BadRequest <==> r == 400,
            *self is NotFound <==> r == 404,
            *self is MethodNotAllowed <==> r == 405,
            *self is InternalServerError <==> r == 500,
    {
        match self {
            Status::BadRequest => 400,
            Status::NotFound => 404,
            Status::MethodNotAllowed => 405,
            Status::InternalServerError => 500,
        }
    }

    /// Returns the text that goes with the status in a response.
    pub fn reason_phrase(&self) -> (r: &'static str)
        ensures
            match *self {
                Status::BadRequest => r@ == "Bad Request"@,
                Status::NotFound => r@ == "Not Found"@,
                Status::MethodNotAllowed => r@ == "Method Not Allowed"@,
                Status::InternalServerError => r@ == "Internal Server Error"@,
            },
    {
        match self {
            Status::BadRequest => "Bad Request",
            Status::NotFound => "Not Found",
            Status::MethodNotAllowed => "Method Not Allowed",
            Status::InternalServerError => "Internal Server Error",
        }
    }
}

/// What kind of error an operation of the server ended in.
#[derive(Debug, Clone, Copy, PartialEq, Eq, Structural)]
pub enum ErrorKind {
    /// The input is invalid.
    InvalidInput,
    /// Any other error.
    Other,
}

} // verus!
