//! Errors of the domain layer and of the HTTP layer, the mapping from the one
//! to the other, the status code of each, and the error body sent to clients.
use vstd::prelude::*;
use vstd::string::StringExecFns;
use crate::ids::{MessageId, uuid_text, uuid_text_of};

verus! {

/// Errors of the domain layer.
#[derive(Debug, Clone)]
pub enum CoreError {
    ServiceUnavailable(String),
    MessageNotFound { id: MessageId },
    FailedToInsertMessage { name: String },
    InvalidMessageName,
    Unhealthy,
    UnknownError { message: String },
    DatabaseError { msg: String },
    SerializationError { msg: String },
}

/// Errors of the HTTP layer; each has a status code.
#[derive(Debug, Clone)]
pub enum ApiError {
    ServiceUnavailable { msg: String },
    InternalServerError,
    StartupError { msg: String },
    Unauthorized,
    Forbidden,
    NotFound,
    BadRequest { msg: String },
    Conflict { error_code: String },
}

/// The body of every error response.
#[derive(Debug, Clone)]
pub struct ErrorBody {
    pub message: String,
    pub error_code: Option<String>,
    pub status: u16,
}

/// The HTTP status code of an error.
pub open spec fn status_of(e: ApiError) -> u16 {
    match e {
        ApiError::ServiceUnavailable { .. } => 503,
        ApiError::InternalServerError => 500,
        ApiError::StartupError { .. } => 500,
        ApiError::Unauthorized => 401,
        ApiError::Forbidden => 403,
        ApiError::NotFound => 404,
        ApiError::BadRequest { .. } => 400,
        ApiError::Conflict { .. } => 409,
    }
}

/// The human-readable text of an error.
pub open spec fn api_error_text(e: ApiError) -> Seq<char> {
    match e {
        ApiError::ServiceUnavailable { msg } => "Service is unavailable: "@ + msg@,
        ApiError::InternalServerError => "Internal server error"@,
        ApiError::StartupError { msg } => "Startup error: "@ + msg@,
        ApiError::Unauthorized => "Unauthorized access"@,
        ApiError::Forbidden => "Forbidden"@,
        ApiError::NotFound => "Not found"@,
        ApiError::BadRequest { msg } => "Bad request: "@ + msg@,
        ApiError::Conflict { .. } => "Conflict"@,
    }
}

/// The error code that a body carries: only a conflict has one.
pub open spec fn error_code_of(e: ApiError) -> Option<String> {
    match e {
        ApiError::Conflict { error_code } => Some(error_code),
        _ => None,
    }
}

/// How a domain error is seen by HTTP clients.
pub open spec fn api_error_of(e: CoreError, r: ApiError) -> bool {
    match e {
        CoreError::Unhealthy => r matches ApiError::ServiceUnavailable { msg } && msg@
            == "Service is unhealthy"@,
        CoreError::ServiceUnavailable(m) => r matches ApiError::ServiceUnavailable { msg } && msg
            == m,
        CoreError::MessageNotFound { .. } => r is NotFound,
        CoreError::InvalidMessageName => r matches ApiError::BadRequest { msg } && msg@
            == "Server name cannot be empty"@,
        _ => r is InternalServerError,
    }
}

/// The human-readable text of a domain error.
pub open spec fn core_error_text(e: CoreError) -> Seq<char> {
    match e {
        CoreError::ServiceUnavailable(_) => "Service is currently unavailable"@,
        CoreError::MessageNotFound { id } => "Message with id "@ + uuid_text_of(id.0)
            + " not found"@,
        CoreError::FailedToInsertMessage { name } => "Failed to insert message with name "@
            + name@,
        CoreError::InvalidMessageName => "Message name cannot be empty"@,
        CoreError::Unhealthy => "Health check failed"@,
        CoreError::UnknownError { message } => "An unknown error occurred: "@ + message@,
        CoreError::DatabaseError { msg } => "Database error: "@ + msg@,
        CoreError::SerializationError { msg } => "Serialization error: "@ + msg@,
    }
}

impl CoreError {
    /// The human-readable text of this error.
    pub fn message(&self) -> (r: String)
        ensures
            r@ == core_error_text(*self),
    {
        match self {
            CoreError::ServiceUnavailable(_) => String::from_str("Service is currently unavailable"),
            CoreError::MessageNotFound { id } => {
                let mut s = text_with("Message with id ", &uuid_text(id.0));
                s.append(" not found");
                s
            },
            CoreError::FailedToInsertMessage { name } => text_with(
                "Failed to insert message with name ",
                name,
            ),
            CoreError::InvalidMessageName => String::from_str("Message name cannot be empty"),
            CoreError::Unhealthy => String::from_str("Health check failed"),
            CoreError::UnknownError { message } => text_with("An unknown error occurred: ", message),
            CoreError::DatabaseError { msg } => text_with("Database error: ", msg),
            CoreError::SerializationError { msg } => text_with("Serialization error: ", msg),
        }
    }
}

fn text_with(prefix: &str, tail: &String) -> (r: String)
    ensures
        r@ == prefix@ + tail@,
{
    let mut s = String::from_str(prefix);
    s.append(tail.as_str());
    s
}

impl ApiError {
    /// The HTTP status code of this error.
    pub fn status_code(&self) -> (r: u16)
        ensures
            r == status_of(*self),
    {
        match self {
            ApiError::StartupError { .. } => 500,
            ApiError::ServiceUnavailable { .. } => 503,
            ApiError::InternalServerError => 500,
            ApiError::Unauthorized => 401,
            ApiError::Forbidden => 403,
            ApiError::NotFound => 404,
            ApiError::BadRequest { .. } => 400,
            ApiError::Conflict { .. } => 409,
        }
    }

    /// The human-readable text of this error.
    pub fn message(&self) -> (r: String)
        ensures
            r@ == api_error_text(*self),
    {
        match self {
            ApiError::ServiceUnavailable { msg } => text_with("Service is unavailable: ", msg),
            ApiError::InternalServerError => String::from_str("Internal server error"),
            ApiError::StartupError { msg } => text_with("Startup error: ", msg),
            ApiError::Unauthorized => String::from_str("Unauthorized access"),
            ApiError::Forbidden => String::from_str("Forbidden"),
            ApiError::NotFound => String::from_str("Not found"),
            ApiError::BadRequest { msg } => text_with("Bad request: ", msg),
            ApiError::Conflict { .. } => String::from_str("Conflict"),
        }
    }

    /// The body sent to the client for this error.
    pub fn into_body(self) -> (b: ErrorBody)
        ensures
            b.status == status_of(self),
            b.message@ == api_error_text(self),
            b.error_code == error_code_of(self),
    {
        let status = self.status_code();
        let message = self.message();
        match self {
            ApiError::Conflict { error_code } => ErrorBody {
                message,
                error_code: Some(error_code),
                status,
            },
            _ => ErrorBody { message, error_code: None, status },
        }
    }

    /// The HTTP error that stands for a domain error.
    pub fn from_core(error: CoreError) -> (r: ApiError)
        ensures
            api_error_of(error, r),
    {
        match error {
            CoreError::Unhealthy => ApiError::ServiceUnavailable {
                msg: String::from_str("Service is unhealthy"),
            },
            CoreError::ServiceUnavailable(msg) => ApiError::ServiceUnavailable { msg },
            CoreError::MessageNotFound { .. } => ApiError::NotFound,
            CoreError::InvalidMessageName => ApiError::BadRequest {
                msg: String::from_str("Server name cannot be empty"),
            },
            _ => ApiError::InternalServerError,
        }
    }
}

} // verus!
