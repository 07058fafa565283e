use vstd::prelude::*;

verus! {

/// The HTTP status classes that the routes answer with.
#[derive(Clone, Copy, Debug, PartialEq, Eq, Structural)]
pub enum Status {
    /// 200
    Success,
    /// 201
    Created,
    /// 204
    NoContent,
    /// 400
    BadRequest,
    /// 401
    Unauthorized,
    /// 404
    NotFound,
    /// 409
    Conflict,
    /// 500
    ServerError,
}

impl Status {
    /// The status code.
    pub open spec fn number(self) -> u16 {
        match self {
            Status::Success => 200,
            Status::Created => 201,
            Status::NoContent => 204,
            Status::BadRequest => 400,
            Status::Unauthorized => 401,
            Status::NotFound => 404,
            Status::Conflict => 409,
            Status::ServerError => 500,
        }
    }

    /// The status code.
    pub fn code(self) -> (code: u16)
        ensures
            code == self.number(),
    {
        match self {
            Status::Success => 200,
            Status::Created => 201,
            Status::NoContent => 204,
            Status::BadRequest => 400,
            Status::Unauthorized => 401,
            Status::NotFound => 404,
            Status::Conflict => 409,
            Status::ServerError => 500,
        }
    }
}

/// What a route answers: a status and, where there is one, the value that
/// goes into the body.
pub struct Reply<T> {
    pub status: Status,
    pub body: Option<T>,
}

} // verus!
