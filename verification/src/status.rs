use vstd::prelude::*;

verus! {

/// The kinds of failure that a request can end in, one per HTTP status that
/// the service answers with.
#[derive(Clone, Copy, Debug, PartialEq, Eq, Structural)]
pub enum Status {
    /// The request is malformed: 400.
    BadRequest,
    /// The caller did not prove who they are: 401.
    Unauthorized,
    /// The caller is known but may not do this: 403.
    Forbidden,
    /// What the request names does not exist: 404.
    NotFound,
    /// The service or something behind it failed: 500.
    InternalServerError,
}

impl Status {
    /// The HTTP status code of this kind of failure.
    pub open spec fn code_of(self) -> u16 {
        match self {
            Status::BadRequest => 400,
            Status::Unauthorized => 401,
            Status::Forbidden => 403,
            Status::NotFound => 404,
            Status::InternalServerError => 500,
        }
    }

    /// The HTTP status code of this kind of failure.
    pub fn code(&self) -> (c: u16)
        ensures
            c == self.code_of(),
    {
        match self {
            Status::BadRequest => 400,
            Status::Unauthorized => 401,
            Status::Forbidden => 403,
            Status::NotFound => 404,
            Status::InternalServerError => 500,
        }
    }
}

} // verus!
