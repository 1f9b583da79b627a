//! Failures of the collaborators and the codes that callers get to see.

use vstd::prelude::*;

verus! {

/// A failure that the message processor or the store returned. The text is
/// detail for the server's own log; it never reaches a caller.
#[derive(Clone, Debug, PartialEq, Eq)]
pub enum DomainError {
    ApiError(String),
    InternalServerError(String),
    BadRequest(String),
    NotFound(String),
}

/// The codes a caller can receive. There is no payload: nothing of a
/// `DomainError`'s text can travel in one.
#[derive(Clone, Copy, Debug, PartialEq, Eq, Structural)]
pub enum ErrorCode {
    InternalError,
    InvalidParams,
}

/// The code that stands for a failure at the boundary: faults of the server
/// become `InternalError`; bad input and missing records both become
/// `InvalidParams`, so that a caller cannot probe for what exists.
pub open spec fn caller_code(err: DomainError) -> ErrorCode {
    match err {
        DomainError::ApiError(_) => ErrorCode::InternalError,
        DomainError::InternalServerError(_) => ErrorCode::InternalError,
        DomainError::BadRequest(_) => ErrorCode::InvalidParams,
        DomainError::NotFound(_) => ErrorCode::InvalidParams,
    }
}

/// Maps a failure to the code its caller receives.
pub fn map_domain_error(err: &DomainError) -> (code: ErrorCode)
    ensures
        code == caller_code(*err),
{
    match err {
        DomainError::ApiError(_) => ErrorCode::InternalError,
        DomainError::InternalServerError(_) => ErrorCode::InternalError,
        DomainError::BadRequest(_) => ErrorCode::InvalidParams,
        DomainError::NotFound(_) => ErrorCode::InvalidParams,
    }
}

/// Which failures become which code: faults of the server the one, faults
/// of the request the other. Every failure has its code, and the text it
/// carries has no part in it.
pub proof fn lemma_caller_code_by_kind(err: DomainError)
    ensures
        caller_code(err) == ErrorCode::InternalError <==> (err is ApiError || err
            is InternalServerError),
        caller_code(err) == ErrorCode::InvalidParams <==> (err is BadRequest || err is NotFound),
{
}

} // verus!
