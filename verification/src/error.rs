//! The closed set of outcomes a caller can be shown, and how each is
//! rendered: status class, stable code, caller-facing message.

use crate::clock::now_micros;
use crate::text::{ends_with, has_suffix, opt_string_view};
use std::fmt::Display;
use vstd::prelude::*;
use vstd::string::to_string_from_display_ensures;

verus! {

/// Main application result type.
pub type AppResult<T> = Result<T, AppError>;

/// Application-wide error kinds. A storage or internal failure carries its
/// internal detail, which is never shown to a caller.
#[derive(Debug, PartialEq, Eq)]
pub enum AppError {
    Database(String),
    Validation(String),
    NotFound { resource: String },
    AlreadyExists { resource: String },
    Unauthorized,
    Forbidden { reason: String },
    Config(String),
    ExternalService { service: String, message: String },
    Internal(String),
}

/// How the storage engine names the constraint that keeps identities
/// apart: by this ending.
pub const IDENTITY_CONSTRAINT: &'static str = "_pkey";

/// What is reported of a record whose identity was already stored.
pub const IDENTITY_TAKEN: &'static str = "identity already stored under ";

/// What the storage engine reported when a statement failed.
#[derive(Debug, PartialEq, Eq)]
pub enum StorageFailure {
    /// The statement broke a uniqueness constraint, which the engine may
    /// name.
    UniqueViolation { constraint: Option<String> },
    /// Anything else, with the engine's own words.
    Other(String),
}

/// Whether a uniqueness constraint of this name keeps identities apart. A
/// constraint without a name is taken to keep codes apart.
pub open spec fn on_identity(constraint: Option<Seq<char>>) -> bool {
    constraint matches Some(name) && has_suffix(name, IDENTITY_CONSTRAINT@)
}

impl StorageFailure {
    /// Whether the engine refused a record because its identity was already
    /// stored, as happens when two writers are issued the same one.
    pub open spec fn identity_clash(&self) -> bool {
        self matches StorageFailure::UniqueViolation { constraint } && on_identity(
            opt_string_view(*constraint),
        )
    }

    /// Whether the engine refused a record because its identity was already
    /// stored.
    pub fn is_identity_clash(&self) -> (clash: bool)
        ensures
            clash == self.identity_clash(),
    {
        match self {
            StorageFailure::UniqueViolation { constraint } => match constraint {
                Some(name) => ends_with(name.as_str(), IDENTITY_CONSTRAINT),
                None => false,
            },
            StorageFailure::Other(_) => false,
        }
    }
}

/// The machine-readable part of a failure response.
#[derive(Debug, PartialEq, Eq)]
pub struct ErrorDetail {
    pub code: String,
    pub message: String,
    pub timestamp: i64,
}

/// The body of a failure response.
#[derive(Debug, PartialEq, Eq)]
pub struct ErrorBody {
    pub success: bool,
    pub error: ErrorDetail,
}

/// A failure as the boundary sends it: the status, the body, and the line to
/// write to the server's log, if the kind is one that is logged.
#[derive(Debug, PartialEq, Eq)]
pub struct ErrorResponse {
    pub status: u16,
    pub body: ErrorBody,
    pub log: Option<String>,
}

impl AppError {
    /// The status class shown to the caller.
    pub open spec fn status_of(&self) -> u16 {
        match self {
            AppError::Database(_) => 500,
            AppError::Validation(_) => 400,
            AppError::NotFound { .. } => 404,
            AppError::AlreadyExists { .. } => 409,
            AppError::Unauthorized => 401,
            AppError::Forbidden { .. } => 403,
            AppError::Config(_) => 500,
            AppError::ExternalService { .. } => 502,
            AppError::Internal(_) => 500,
        }
    }

    /// The stable code shown to the caller.
    pub open spec fn code_text(&self) -> Seq<char> {
        match self {
            AppError::Database(_) => "DATABASE_ERROR"@,
            AppError::Validation(_) => "VALIDATION_ERROR"@,
            AppError::NotFound { .. } => "NOT_FOUND"@,
            AppError::AlreadyExists { .. } => "ALREADY_EXISTS"@,
            AppError::Unauthorized => "UNAUTHORIZED"@,
            AppError::Forbidden { .. } => "FORBIDDEN"@,
            AppError::Config(_) => "CONFIG_ERROR"@,
            AppError::ExternalService { .. } => "EXTERNAL_SERVICE_ERROR"@,
            AppError::Internal(_) => "INTERNAL_ERROR"@,
        }
    }

    /// The message shown to the caller. Server-side kinds get a fixed
    /// sentence that leaks nothing of their detail.
    pub open spec fn public_text(&self) -> Seq<char> {
        match self {
            AppError::Database(_) => "Database error occurred"@,
            AppError::Validation(msg) => msg@,
            AppError::NotFound { resource } => resource@ + " not found"@,
            AppError::AlreadyExists { resource } => resource@ + " already exists"@,
            AppError::Unauthorized => "Unauthorized access"@,
            AppError::Forbidden { reason } => reason@,
            AppError::Config(_) => "Configuration error"@,
            AppError::ExternalService { .. } => "External service error"@,
            AppError::Internal(_) => "Internal server error"@,
        }
    }

    /// The full description, internal detail included.
    pub open spec fn full_text(&self) -> Seq<char> {
        match self {
            AppError::Database(detail) => "Database error: "@ + detail@,
            AppError::Validation(msg) => "Validation error: "@ + msg@,
            AppError::NotFound { resource } => "Not found: "@ + resource@,
            AppError::AlreadyExists { resource } => "Already exists: "@ + resource@,
            AppError::Unauthorized => "Unauthorized access"@,
            AppError::Forbidden { reason } => "Forbidden: "@ + reason@,
            AppError::Config(msg) => "Configuration error: "@ + msg@,
            AppError::ExternalService { service, message } => "External service error: "@
                + service@ + " - "@ + message@,
            AppError::Internal(detail) => "Internal server error: "@ + detail@,
        }
    }

    /// The line written to the server's log, for the kinds that are logged.
    pub open spec fn log_text(&self) -> Option<Seq<char>> {
        match self {
            AppError::Database(_) => Some("Database error: "@ + self.full_text()),
            AppError::Config(msg) => Some("Configuration error: "@ + msg@),
            AppError::ExternalService { service, message } => Some(
                "External service "@ + service@ + " error: "@ + message@,
            ),
            AppError::Internal(_) => Some("Internal error: "@ + self.full_text()),
            _ => None,
        }
    }

    /// Convert validation errors to AppError.
    pub fn validation<T: Display>(error: T) -> (e: Self)
        ensures
            e matches AppError::Validation(msg) && to_string_from_display_ensures::<T>(&error, msg),
    {
        AppError::Validation(error.to_string())
    }

    /// Create not found error.
    pub fn not_found(resource: &str) -> (e: Self)
        ensures
            e matches AppError::NotFound { resource: r } && r@ == resource@,
    {
        AppError::NotFound { resource: String::from_str(resource) }
    }

    /// Create already exists error.
    pub fn already_exists(resource: &str) -> (e: Self)
        ensures
            e matches AppError::AlreadyExists { resource: r } && r@ == resource@,
    {
        AppError::AlreadyExists { resource: String::from_str(resource) }
    }

    /// Create forbidden error.
    pub fn forbidden(reason: &str) -> (e: Self)
        ensures
            e matches AppError::Forbidden { reason: r } && r@ == reason@,
    {
        AppError::Forbidden { reason: String::from_str(reason) }
    }

    /// The outcome of a statement that the storage engine refused while
    /// writing `resource`: a second use of a code is a conflict, whatever
    /// check ran before the write; a second use of an identity, and anything
    /// else, is a storage failure.
    pub fn from_storage(failure: StorageFailure, resource: &str) -> (e: Self)
        ensures
            match failure {
                StorageFailure::UniqueViolation { constraint } => if failure.identity_clash() {
                    &&& e matches AppError::Database(d)
                    &&& d@ == IDENTITY_TAKEN@ + constraint->0@
                } else {
                    &&& e matches AppError::AlreadyExists { resource: r }
                    &&& r@ == resource@
                },
                StorageFailure::Other(detail) => e matches AppError::Database(d) && d@ == detail@,
            },
    {
        match failure {
            StorageFailure::UniqueViolation { constraint: Some(name) } => if ends_with(
                name.as_str(),
                IDENTITY_CONSTRAINT,
            ) {
                AppError::Database(String::from_str(IDENTITY_TAKEN).concat(name.as_str()))
            } else {
                AppError::already_exists(resource)
            },
            StorageFailure::UniqueViolation { constraint: None } => AppError::already_exists(
                resource,
            ),
            StorageFailure::Other(detail) => AppError::Database(detail),
        }
    }

    /// The status class shown to the caller.
    pub fn status(&self) -> (status: u16)
        ensures
            status == self.status_of(),
    {
        match self {
            AppError::Database(_) => 500,
            AppError::Validation(_) => 400,
            AppError::NotFound { .. } => 404,
            AppError::AlreadyExists { .. } => 409,
            AppError::Unauthorized => 401,
            AppError::Forbidden { .. } => 403,
            AppError::Config(_) => 500,
            AppError::ExternalService { .. } => 502,
            AppError::Internal(_) => 500,
        }
    }

    /// The stable code shown to the caller.
    pub fn error_code(&self) -> (code: &'static str)
        ensures
            code@ == self.code_text(),
    {
        match self {
            AppError::Database(_) => "DATABASE_ERROR",
            AppError::Validation(_) => "VALIDATION_ERROR",
            AppError::NotFound { .. } => "NOT_FOUND",
            AppError::AlreadyExists { .. } => "ALREADY_EXISTS",
            AppError::Unauthorized => "UNAUTHORIZED",
            AppError::Forbidden { .. } => "FORBIDDEN",
            AppError::Config(_) => "CONFIG_ERROR",
            AppError::ExternalService { .. } => "EXTERNAL_SERVICE_ERROR",
            AppError::Internal(_) => "INTERNAL_ERROR",
        }
    }

    /// The message shown to the caller.
    pub fn public_message(&self) -> (message: String)
        ensures
            message@ == self.public_text(),
    {
        match self {
            AppError::Database(_) => String::from_str("Database error occurred"),
            AppError::Validation(msg) => msg.clone(),
            AppError::NotFound { resource } => resource.clone().concat(" not found"),
            AppError::AlreadyExists { resource } => resource.clone().concat(" already exists"),
            AppError::Unauthorized => String::from_str("Unauthorized access"),
            AppError::Forbidden { reason } => reason.clone(),
            AppError::Config(_) => String::from_str("Configuration error"),
            AppError::ExternalService { .. } => String::from_str("External service error"),
            AppError::Internal(_) => String::from_str("Internal server error"),
        }
    }

    /// The full description, internal detail included. For the server's eyes
    /// only.
    pub fn to_message(&self) -> (message: String)
        ensures
            message@ == self.full_text(),
    {
        match self {
            AppError::Database(detail) => String::from_str("Database error: ").concat(
                detail.as_str(),
            ),
            AppError::Validation(msg) => String::from_str("Validation error: ").concat(
                msg.as_str(),
            ),
            AppError::NotFound { resource } => String::from_str("Not found: ").concat(
                resource.as_str(),
            ),
            AppError::AlreadyExists { resource } => String::from_str("Already exists: ").concat(
                resource.as_str(),
            ),
            AppError::Unauthorized => String::from_str("Unauthorized access"),
            AppError::Forbidden { reason } => String::from_str("Forbidden: ").concat(
                reason.as_str(),
            ),
            AppError::Config(msg) => String::from_str("Configuration error: ").concat(
                msg.as_str(),
            ),
            AppError::ExternalService { service, message } => String::from_str(
                "External service error: ",
            ).concat(service.as_str()).concat(" - ").concat(message.as_str()),
            AppError::Internal(detail) => String::from_str("Internal server error: ").concat(
                detail.as_str(),
            ),
        }
    }

    /// The line written to the server's log, for the kinds that are logged.
    pub fn log_line(&self) -> (line: Option<String>)
        ensures
            crate::text::opt_string_view(line) == self.log_text(),
    {
        match self {
            AppError::Database(_) => Some(
                String::from_str("Database error: ").concat(self.to_message().as_str()),
            ),
            AppError::Config(msg) => Some(
                String::from_str("Configuration error: ").concat(msg.as_str()),
            ),
            AppError::ExternalService { service, message } => Some(
                String::from_str("External service ").concat(service.as_str()).concat(
                    " error: ",
                ).concat(message.as_str()),
            ),
            AppError::Internal(_) => Some(
                String::from_str("Internal error: ").concat(self.to_message().as_str()),
            ),
            _ => None,
        }
    }

    /// Whether `response` renders this error with the time stamp given.
    pub open spec fn rendered_as(&self, response: ErrorResponse, timestamp: i64) -> bool {
        &&& response.status == self.status_of()
        &&& !response.body.success
        &&& response.body.error.code@ == self.code_text()
        &&& response.body.error.message@ == self.public_text()
        &&& response.body.error.timestamp == timestamp
        &&& crate::text::opt_string_view(response.log) == self.log_text()
    }

    /// Renders the error for the boundary, stamped `timestamp`.
    pub fn into_response_at(self, timestamp: i64) -> (response: ErrorResponse)
        ensures
            self.rendered_as(response, timestamp),
    {
        let status = self.status();
        let code = String::from_str(self.error_code());
        let message = self.public_message();
        let log = self.log_line();
        ErrorResponse {
            status,
            body: ErrorBody { success: false, error: ErrorDetail { code, message, timestamp } },
            log,
        }
    }

    /// Renders the error for the boundary, stamped with the current time.
    pub fn into_response(self) -> (response: ErrorResponse)
        ensures
            exists|timestamp: i64| self.rendered_as(response, timestamp),
    {
        let timestamp = now_micros();
        let response = self.into_response_at(timestamp);
        assert(self.rendered_as(response, timestamp));
        response
    }
}

} // verus!
