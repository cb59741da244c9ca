//! The statuses that the guard answers with.

use vstd::prelude::*;

verus! {

/// An HTTP status that the guard hands to the framework in place of a value.
#[derive(Clone, Copy, Debug, PartialEq, Eq, Structural)]
pub enum Status {
    /// 400: the body could not be read.
    BadRequest,
    /// 413: the body is longer than the limit allows.
    PayloadTooLarge,
    /// 422: the body was read, but it is not a value of the requested type.
    UnprocessableEntity,
    /// 500: a value could not be written as a form.
    InternalServerError,
}

impl Status {
    /// The number that stands for this status on the wire.
    pub open spec fn spec_code(self) -> u16 {
        match self {
            Status::BadRequest => 400,
            Status::PayloadTooLarge => 413,
            Status::UnprocessableEntity => 422,
            Status::InternalServerError => 500,
        }
    }

    /// The number that stands for this status on the wire.
    pub fn code(&self) -> (code: u16)
        ensures
            code == self.spec_code(),
    {
        match self {
            Status::BadRequest => 400,
            Status::PayloadTooLarge => 413,
            Status::UnprocessableEntity => 422,
            Status::InternalServerError => 500,
        }
    }
}

} // verus!
