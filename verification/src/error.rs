//! Error taxonomy shared by the whole layer.
//!
//! Every error carries a machine-readable kind plus a human-readable
//! message. `code` and the two status functions give the exact values
//! that the API boundary attaches to each kind.

use vstd::prelude::*;

verus! {

/// One error kind per failure class crossing the API boundary.
#[derive(Debug, Clone, PartialEq, Eq)]
pub enum AppError {
    /// A required configuration variable was missing or unreadable.
    EnvError(String),
    /// Transport or backend failure of the storage layer, and stored
    /// data that can no longer be mapped to an entity.
    DatabaseError(String),
    /// Missing, invalid or expired credentials.
    Unauthorized(String),
    /// Authenticated but insufficient access level.
    Forbidden(String),
    /// Malformed input.
    ValidationError(String),
    /// A lookup that was expected to return a record returned none.
    NotFound(String),
    /// A collaborating service failed.
    ExternalServiceError(String),
    /// Any other internal failure.
    InternalServerError(String),
}

/// Convenience alias used by fallible operations of this layer.
pub type AppResult<T> = Result<T, AppError>;

impl AppError {
    /// The human-readable message carried by the error.
    pub fn message(&self) -> (r: String)
        ensures
            r@ == self.message_spec(),
    {
        match self {
            AppError::EnvError(m) => m.clone(),
            AppError::DatabaseError(m) => m.clone(),
            AppError::Unauthorized(m) => m.clone(),
            AppError::Forbidden(m) => m.clone(),
            AppError::ValidationError(m) => m.clone(),
            AppError::NotFound(m) => m.clone(),
            AppError::ExternalServiceError(m) => m.clone(),
            AppError::InternalServerError(m) => m.clone(),
        }
    }

    /// The message as a sequence of characters.
    pub open spec fn message_spec(&self) -> Seq<char> {
        match self {
            AppError::EnvError(m) => m@,
            AppError::DatabaseError(m) => m@,
            AppError::Unauthorized(m) => m@,
            AppError::Forbidden(m) => m@,
            AppError::ValidationError(m) => m@,
            AppError::NotFound(m) => m@,
            AppError::ExternalServiceError(m) => m@,
            AppError::InternalServerError(m) => m@,
        }
    }

    /// Machine-readable code attached to the error at the API boundary.
    pub fn code(&self) -> (r: &'static str)
        ensures
            r@ == self.code_spec(),
    {
        match self {
            AppError::EnvError(_) => "ENV_ERROR",
            AppError::ValidationError(_) => "VALIDATION_ERROR",
            AppError::NotFound(_) => "NOT_FOUND",
            AppError::Unauthorized(_) => "UNAUTHORIZED",
            AppError::Forbidden(_) => "FORBIDDEN",
            AppError::DatabaseError(_) => "INTERNAL_SERVER_ERROR",
            AppError::ExternalServiceError(_) => "INTERNAL_SERVER_ERROR",
            AppError::InternalServerError(_) => "INTERNAL_SERVER_ERROR",
        }
    }

    /// The code as a sequence of characters.
    pub open spec fn code_spec(&self) -> Seq<char> {
        match self {
            AppError::EnvError(_) => "ENV_ERROR"@,
            AppError::ValidationError(_) => "VALIDATION_ERROR"@,
            AppError::NotFound(_) => "NOT_FOUND"@,
            AppError::Unauthorized(_) => "UNAUTHORIZED"@,
            AppError::Forbidden(_) => "FORBIDDEN"@,
            AppError::DatabaseError(_) => "INTERNAL_SERVER_ERROR"@,
            AppError::ExternalServiceError(_) => "INTERNAL_SERVER_ERROR"@,
            AppError::InternalServerError(_) => "INTERNAL_SERVER_ERROR"@,
        }
    }

    /// Status number attached to the error inside an API error payload.
    pub fn graphql_status(&self) -> (r: u16)
        ensures
            r == self.graphql_status_spec(),
    {
        match self {
            AppError::EnvError(_) => 404,
            AppError::ValidationError(_) => 400,
            AppError::NotFound(_) => 404,
            AppError::Unauthorized(_) => 401,
            AppError::Forbidden(_) => 403,
            AppError::DatabaseError(_) => 500,
            AppError::ExternalServiceError(_) => 500,
            AppError::InternalServerError(_) => 500,
        }
    }

    /// Status number of the error payload, as an integer.
    pub open spec fn graphql_status_spec(&self) -> u16 {
        match self {
            AppError::EnvError(_) => 404u16,
            AppError::ValidationError(_) => 400u16,
            AppError::NotFound(_) => 404u16,
            AppError::Unauthorized(_) => 401u16,
            AppError::Forbidden(_) => 403u16,
            AppError::DatabaseError(_) => 500u16,
            AppError::ExternalServiceError(_) => 500u16,
            AppError::InternalServerError(_) => 500u16,
        }
    }

    /// HTTP status used when the error is returned as a plain response.
    pub fn http_status(&self) -> (r: u16)
        ensures
            r == self.http_status_spec(),
    {
        match self {
            AppError::EnvError(_) => 500,
            AppError::DatabaseError(_) => 500,
            AppError::Unauthorized(_) => 401,
            AppError::Forbidden(_) => 403,
            AppError::ValidationError(_) => 400,
            AppError::NotFound(_) => 404,
            AppError::ExternalServiceError(_) => 502,
            AppError::InternalServerError(_) => 500,
        }
    }

    /// HTTP status of the error, as an integer.
    pub open spec fn http_status_spec(&self) -> u16 {
        match self {
            AppError::EnvError(_) => 500u16,
            AppError::DatabaseError(_) => 500u16,
            AppError::Unauthorized(_) => 401u16,
            AppError::Forbidden(_) => 403u16,
            AppError::ValidationError(_) => 400u16,
            AppError::NotFound(_) => 404u16,
            AppError::ExternalServiceError(_) => 502u16,
            AppError::InternalServerError(_) => 500u16,
        }
    }
}

} // verus!
