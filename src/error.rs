//! The failures of the operations and the HTTP answer for each.

use vstd::prelude::*;
use crate::validation::ValidationErrors;

verus! {

/// HTTP status of a rejected request.
pub const STATUS_BAD_REQUEST: u16 = 400;

/// HTTP status of a lookup that found nothing.
pub const STATUS_NOT_FOUND: u16 = 404;

/// HTTP status of a failed storage call.
pub const STATUS_INTERNAL_SERVER_ERROR: u16 = 500;

/// Why an operation failed.
#[derive(Clone, Debug, PartialEq, Eq)]
pub enum AppError {
    /// The request broke one or more constraints, all listed.
    ValidationError(ValidationErrors),
    /// A record could not be converted to or from the store's item format.
    SerdeDynamo,
    /// The store call itself failed.
    AwsSdkError,
    /// No record has the asked slug.
    NotFound,
}

/// The HTTP answer for a failure: its status, and for a rejected request the
/// violations to send back as the JSON body.  No body means an empty one.
#[derive(Clone, Debug, PartialEq, Eq)]
pub struct ErrorReply {
    pub status: u16,
    pub body: Option<ValidationErrors>,
}

impl AppError {
    /// The HTTP status that reports this failure.
    pub open spec fn status(&self) -> u16 {
        match self {
            AppError::ValidationError(_) => STATUS_BAD_REQUEST,
            AppError::SerdeDynamo => STATUS_INTERNAL_SERVER_ERROR,
            AppError::AwsSdkError => STATUS_INTERNAL_SERVER_ERROR,
            AppError::NotFound => STATUS_NOT_FOUND,
        }
    }

    /// The answer for this failure: a rejected request carries its
    /// violations; storage failures and a missing record carry nothing, so
    /// that no internal detail leaks.
    pub fn into_response(self) -> (r: ErrorReply)
        ensures
            r.status == self.status(),
            match self {
                AppError::ValidationError(e) => r.body is Some && r.body->0.errors@ == e.errors@,
                _ => r.body is None,
            },
    {
        match self {
            AppError::ValidationError(e) => ErrorReply { status: STATUS_BAD_REQUEST, body: Some(e) },
            AppError::SerdeDynamo => ErrorReply { status: STATUS_INTERNAL_SERVER_ERROR, body: None },
            AppError::AwsSdkError => ErrorReply { status: STATUS_INTERNAL_SERVER_ERROR, body: None },
            AppError::NotFound => ErrorReply { status: STATUS_NOT_FOUND, body: None },
        }
    }
}

} // verus!
