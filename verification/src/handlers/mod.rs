pub mod da;
pub mod health_check;

use vstd::prelude::*;

verus! {

/// What a handler answers: a body with the status 200, or one of the
/// statuses 400, 404 and 500, the first and the last with a line of text.
#[derive(Debug, Clone)]
pub enum Reply<T> {
    Json(T),
    BadRequest(String),
    NotFound,
    InternalServerError(String),
}

impl<T> Reply<T> {
    /// The status code of the answer.
    pub open spec fn status_spec(&self) -> u16 {
        match self {
            Reply::Json(_) => 200,
            Reply::BadRequest(_) => 400,
            Reply::NotFound => 404,
            Reply::InternalServerError(_) => 500,
        }
    }

    /// The status code of the answer.
    #[verifier::when_used_as_spec(status_spec)]
    pub fn status(&self) -> (code: u16)
        ensures
            code == self.status_spec(),
    {
        match self {
            Reply::Json(_) => 200,
            Reply::BadRequest(_) => 400,
            Reply::NotFound => 404,
            Reply::InternalServerError(_) => 500,
        }
    }
}

} // verus!
