//! Closed error taxonomy of the backend.
//!
//! Every failure a caller can observe is one of these variants, each carrying
//! a human-readable message and an optional structured detail. Lower-layer
//! failures are wrapped into the taxonomy at the service boundary; the
//! `UnknownError` catch-all is never shown verbatim to a caller.

use vstd::prelude::*;
use vstd::string::*;

verus! {

/// Response envelope for errors: a message plus an optional detail value.
pub struct AppErrorMessage {
    pub message: String,
    pub details: Option<String>,
}

/// The closed error taxonomy, mapped onto HTTP status categories.
pub enum AppError {
    UnAuthorizedError(AppErrorMessage),
    ConflictError(AppErrorMessage),
    ForbiddenError(AppErrorMessage),
    NotFoundError(AppErrorMessage),
    BadRequestError(AppErrorMessage),
    TooManyRequestsError(AppErrorMessage),
    ServiceUnavailableError(AppErrorMessage),
    ServiceNotImplementedError(AppErrorMessage),
    UnprocessableEntityError(AppErrorMessage),
    InternalServerError(AppErrorMessage),
    UnknownError(AppErrorMessage),
}

impl AppError {
    /// The HTTP status code each variant maps to.
    pub open spec fn spec_status_code(&self) -> u16 {
        match self {
            AppError::BadRequestError(_) => 400,
            AppError::UnAuthorizedError(_) => 401,
            AppError::ForbiddenError(_) => 403,
            AppError::NotFoundError(_) => 404,
            AppError::ConflictError(_) => 409,
            AppError::UnprocessableEntityError(_) => 422,
            AppError::TooManyRequestsError(_) => 429,
            AppError::InternalServerError(_) => 500,
            AppError::ServiceNotImplementedError(_) => 501,
            AppError::ServiceUnavailableError(_) => 503,
            AppError::UnknownError(_) => 500,
        }
    }

    pub fn status_code(&self) -> (r: u16)
        ensures
            r == self.spec_status_code(),
    {
        match self {
            AppError::BadRequestError(_) => 400,
            AppError::UnAuthorizedError(_) => 401,
            AppError::ForbiddenError(_) => 403,
            AppError::NotFoundError(_) => 404,
            AppError::ConflictError(_) => 409,
            AppError::UnprocessableEntityError(_) => 422,
            AppError::TooManyRequestsError(_) => 429,
            AppError::InternalServerError(_) => 500,
            AppError::ServiceNotImplementedError(_) => 501,
            AppError::ServiceUnavailableError(_) => 503,
            AppError::UnknownError(_) => 500,
        }
    }

    /// The message carried by the variant, as the caller may read it.
    pub open spec fn spec_message(&self) -> AppErrorMessage {
        match self {
            AppError::BadRequestError(m) => *m,
            AppError::UnAuthorizedError(m) => *m,
            AppError::ForbiddenError(m) => *m,
            AppError::NotFoundError(m) => *m,
            AppError::ConflictError(m) => *m,
            AppError::UnprocessableEntityError(m) => *m,
            AppError::TooManyRequestsError(m) => *m,
            AppError::InternalServerError(m) => *m,
            AppError::ServiceNotImplementedError(m) => *m,
            AppError::ServiceUnavailableError(m) => *m,
            AppError::UnknownError(m) => *m,
        }
    }

    /// The envelope that a response serializes: opaque lower-layer failures
    /// are always rewritten to a generic message so that internals never leak.
    pub fn into_response_message(self) -> (r: AppErrorMessage)
        ensures
            !(self is UnknownError) ==> r == self.spec_message(),
            self is UnknownError ==> r.message@ == "Unknown"@ && r.details is None,
    {
        match self {
            AppError::UnknownError(_) => AppErrorMessage {
                message: String::from_str("Unknown"),
                details: None,
            },
            AppError::BadRequestError(m) => m,
            AppError::UnAuthorizedError(m) => m,
            AppError::ForbiddenError(m) => m,
            AppError::NotFoundError(m) => m,
            AppError::ConflictError(m) => m,
            AppError::UnprocessableEntityError(m) => m,
            AppError::TooManyRequestsError(m) => m,
            AppError::InternalServerError(m) => m,
            AppError::ServiceNotImplementedError(m) => m,
            AppError::ServiceUnavailableError(m) => m,
        }
    }
}

/// Builds the envelope used by most error sites: a message with no details.
pub fn plain_message(text: &str) -> (r: AppErrorMessage)
    ensures
        r.message@ == text@,
        r.details is None,
{
    AppErrorMessage { message: text.to_owned(), details: None }
}

} // verus!
