//! The error type shared by the domain and the use cases.

use vstd::prelude::*;

verus! {

/// What can go wrong in a domain operation, each with its message.
#[derive(Debug, PartialEq, Eq)]
pub enum DomainError {
    /// Input that breaks a rule of the domain.
    Validation(String),
    /// A referenced entity does not exist.
    NotFound(String),
    /// The operation would duplicate an existing entity.
    Conflict(String),
    /// The caller could not be authenticated.
    Unauthorized,
    /// The caller is known but may not do this.
    Forbidden(String),
}

/// The abstract value of a [`DomainError`]: its variant and message text.
pub enum ErrorView {
    Validation(Seq<char>),
    NotFound(Seq<char>),
    Conflict(Seq<char>),
    Unauthorized,
    Forbidden(Seq<char>),
}

impl View for DomainError {
    type V = ErrorView;

    open spec fn view(&self) -> ErrorView {
        match self {
            DomainError::Validation(m) => ErrorView::Validation(m@),
            DomainError::NotFound(m) => ErrorView::NotFound(m@),
            DomainError::Conflict(m) => ErrorView::Conflict(m@),
            DomainError::Unauthorized => ErrorView::Unauthorized,
            DomainError::Forbidden(m) => ErrorView::Forbidden(m@),
        }
    }
}

impl Clone for DomainError {
    fn clone(&self) -> (out: Self)
        ensures
            out@ == self@,
    {
        match self {
            DomainError::Validation(m) => DomainError::Validation(m.clone()),
            DomainError::NotFound(m) => DomainError::NotFound(m.clone()),
            DomainError::Conflict(m) => DomainError::Conflict(m.clone()),
            DomainError::Unauthorized => DomainError::Unauthorized,
            DomainError::Forbidden(m) => DomainError::Forbidden(m.clone()),
        }
    }
}

/// Whether `e` is a `Validation` error whose message starts with `prefix`.
pub open spec fn is_validation_starting_with(e: ErrorView, prefix: Seq<char>) -> bool {
    e matches ErrorView::Validation(m) && prefix.is_prefix_of(m)
}

/// The result of a domain operation.
pub type DomainResult<T> = Result<T, DomainError>;

} // verus!
