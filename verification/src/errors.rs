use vstd::prelude::*;

verus! {

/// Why a request was refused.
#[derive(Clone, Copy, Debug, PartialEq, Eq, Structural)]
pub enum APIError {
    Unauthorized,
    NotFound,
    InternalServerError,
    Conflict,
}

/// The HTTP status that answers a refused request.
pub open spec fn status_of(e: APIError) -> u16 {
    match e {
        APIError::Unauthorized => 401,
        APIError::NotFound => 404,
        APIError::InternalServerError => 500,
        APIError::Conflict => 409,
    }
}

/// The text body that answers a refused request.
pub open spec fn message_of(e: APIError) -> Seq<char> {
    match e {
        APIError::Unauthorized => "Unauthorized"@,
        APIError::NotFound => "Page not found"@,
        APIError::InternalServerError => "Internal server error"@,
        APIError::Conflict => "Already exists"@,
    }
}

impl APIError {
    /// HTTP status code of the response for this error.
    pub fn status_code(&self) -> (s: u16)
        ensures
            s == status_of(*self),
    {
        match self {
            APIError::Unauthorized => 401,
            APIError::NotFound => 404,
            APIError::InternalServerError => 500,
            APIError::Conflict => 409,
        }
    }

    /// Body text of the response for this error.
    pub fn message(&self) -> (m: &'static str)
        ensures
            m@ == message_of(*self),
    {
        match self {
            APIError::Unauthorized => "Unauthorized",
            APIError::NotFound => "Page not found",
            APIError::InternalServerError => "Internal server error",
            APIError::Conflict => "Already exists",
        }
    }
}

/// A successful plain-text answer: status code and body.
#[derive(Clone, Copy, Debug)]
pub struct Reply {
    pub status: u16,
    pub body: &'static str,
}

/// The character view of a text result.
pub open spec fn text_result(r: Result<String, APIError>) -> Result<Seq<char>, APIError> {
    match r {
        Ok(s) => Ok(s@),
        Err(e) => Err(e),
    }
}

/// Different refusals are answered with different status codes.
pub proof fn lemma_error_statuses_distinct(a: APIError, b: APIError)
    requires
        a != b,
    ensures
        status_of(a) != status_of(b),
{
}

} // verus!
