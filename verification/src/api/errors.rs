//! How domain errors are answered over HTTP.

use vstd::prelude::*;

use crate::errors::{DomainError, ErrorView};
use crate::text::string_of;

verus! {

/// A domain error on its way to becoming an HTTP response.
#[derive(Debug)]
pub struct ApiError(pub DomainError);

/// The HTTP status that answers an error: 400 for a validation error, 404
/// for a missing entity, 409 for a conflict, 401 when unauthenticated, 403
/// when forbidden.
pub open spec fn status_of(e: ErrorView) -> u16 {
    match e {
        ErrorView::Validation(_) => 400,
        ErrorView::NotFound(_) => 404,
        ErrorView::Conflict(_) => 409,
        ErrorView::Unauthorized => 401,
        ErrorView::Forbidden(_) => 403,
    }
}

/// The message of the response body: the error's own message, or
/// `Unauthorized` for an authentication failure.
pub open spec fn message_of(e: ErrorView) -> Seq<char> {
    match e {
        ErrorView::Validation(m) => m,
        ErrorView::NotFound(m) => m,
        ErrorView::Conflict(m) => m,
        ErrorView::Unauthorized => "Unauthorized"@,
        ErrorView::Forbidden(m) => m,
    }
}

impl ApiError {
    /// The status and message of the response that answers the error.
    pub fn into_status_and_message(self) -> (r: (u16, String))
        ensures
            r.0 == status_of(self.0@),
            r.1@ == message_of(self.0@),
    {
        match self.0 {
            DomainError::Validation(m) => (400, m),
            DomainError::NotFound(m) => (404, m),
            DomainError::Conflict(m) => (409, m),
            DomainError::Unauthorized => (401, string_of("Unauthorized")),
            DomainError::Forbidden(m) => (403, m),
        }
    }
}

impl From<DomainError> for ApiError {
    fn from(e: DomainError) -> (out: ApiError) {
        ApiError(e)
    }
}

impl vstd::std_specs::convert::FromSpecImpl<DomainError> for ApiError {
    open spec fn obeys_from_spec() -> bool {
        true
    }

    open spec fn from_spec(e: DomainError) -> ApiError {
        ApiError(e)
    }
}

} // verus!
