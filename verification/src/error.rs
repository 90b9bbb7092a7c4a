//! The failures that the library reports to its callers.

use vstd::prelude::*;

verus! {

/// Why a request was not served.
#[derive(Debug)]
pub enum AppError {
    /// The entry that the request names does not exist.
    NotFound,
    /// A value of the request is not one of those accepted; the message
    /// holds the offending value.
    Validation(String),
    /// The store failed; the text is what it reported.
    Database(String),
    /// Anything else that went wrong while serving; the text says what.
    Unexpected(String),
    /// The caller could not be identified.
    Unauthorized,
}

impl AppError {
    /// The HTTP status that stands for the failure.
    pub open spec fn status_of(self) -> int {
        match self {
            AppError::NotFound => 404,
            AppError::Validation(_) => 400,
            AppError::Database(_) => 500,
            AppError::Unexpected(_) => 500,
            AppError::Unauthorized => 401,
        }
    }

    /// The machine-readable name of the failure.
    pub open spec fn kind_text(self) -> Seq<char> {
        match self {
            AppError::NotFound => "not_found"@,
            AppError::Validation(_) => "validation_error"@,
            AppError::Database(_) => "database_error"@,
            AppError::Unexpected(_) => "unexpected_error"@,
            AppError::Unauthorized => "unauthorized"@,
        }
    }

    /// The text shown to the caller: the message of a validation failure as
    /// it is, a fixed text for every other failure.
    pub open spec fn message_text(self) -> Seq<char> {
        match self {
            AppError::NotFound => "resource not found"@,
            AppError::Validation(msg) => msg@,
            AppError::Database(_) => "database error"@,
            AppError::Unexpected(_) => "internal server error"@,
            AppError::Unauthorized => "unauthorized"@,
        }
    }

    /// The HTTP status that stands for the failure.
    pub fn status_code(&self) -> (r: u16)
        ensures
            r == self.status_of(),
    {
        match self {
            AppError::NotFound => 404,
            AppError::Validation(_) => 400,
            AppError::Database(_) => 500,
            AppError::Unexpected(_) => 500,
            AppError::Unauthorized => 401,
        }
    }

    /// The machine-readable name of the failure.
    pub fn kind(&self) -> (r: &'static str)
        ensures
            r@ == self.kind_text(),
    {
        match self {
            AppError::NotFound => "not_found",
            AppError::Validation(_) => "validation_error",
            AppError::Database(_) => "database_error",
            AppError::Unexpected(_) => "unexpected_error",
            AppError::Unauthorized => "unauthorized",
        }
    }

    /// The text shown to the caller.
    pub fn message(&self) -> (r: String)
        ensures
            r@ == self.message_text(),
    {
        match self {
            AppError::NotFound => "resource not found".to_string(),
            AppError::Validation(msg) => msg.clone(),
            AppError::Database(_) => "database error".to_string(),
            AppError::Unexpected(_) => "internal server error".to_string(),
            AppError::Unauthorized => "unauthorized".to_string(),
        }
    }
}

} // verus!
