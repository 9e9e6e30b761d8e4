//! The few notions of HTTP that the service and its provider adapters
//! share.

use vstd::prelude::*;

verus! {

/// The HTTP methods in use.
#[derive(PartialEq, Eq, Clone, Copy, Debug, Structural)]
pub enum Method {
    Get,
    Put,
}

/// The status of an answer.
#[derive(PartialEq, Eq, Clone, Copy, Debug, Structural)]
pub enum Status {
    Success,
    BadRequest,
    Unauthorized,
    InternalServerError,
}

impl Status {
    /// The HTTP status code.
    pub fn code(&self) -> (code: u16)
        ensures
            code == match *self {
                Status::Success => 200u16,
                Status::BadRequest => 400u16,
                Status::Unauthorized => 401u16,
                Status::InternalServerError => 500u16,
            },
    {
        match self {
            Status::Success => 200,
            Status::BadRequest => 400,
            Status::Unauthorized => 401,
            Status::InternalServerError => 500,
        }
    }
}

} // verus!
