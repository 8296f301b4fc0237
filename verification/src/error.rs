//! The error taxonomy shared by HTTP responses and WebSocket acknowledgements.

use vstd::prelude::*;

verus! {

/// `sqlx::Error`, an error of the store, held as an opaque value.
#[verifier::external_type_specification]
#[verifier::external_body]
pub struct ExStoreError(sqlx::Error);

/// A failure of the store, as the error mapping reads it.
#[derive(Debug, Clone, PartialEq, Eq)]
pub enum StoreFailure {
    /// A query that expects a row found none.
    RowNotFound,
    /// The database refused a statement: its SQLSTATE code, if it gave one,
    /// and its description of the error.
    Database { code: Option<String>, detail: String },
    /// Anything else, with its description.
    Other { detail: String },
}

/// What an error of the store holds for the error mapping: its variant,
/// and for an error of the database its code and its description.
pub uninterp spec fn failure_of(error: sqlx::Error) -> StoreFailure;

/// The variant of a `sqlx::Error`, with the database's `code()` and the
/// text that `to_string()` gives for the error: what the error holds, read
/// out of it.
#[verifier::external_body]
fn store_failure(error: sqlx::Error) -> (failure: StoreFailure)
    ensures
        failure == failure_of(error),
{
    match error {
        sqlx::Error::RowNotFound => StoreFailure::RowNotFound,
        sqlx::Error::Database(refusal) => StoreFailure::Database {
            code: refusal.code().map(|code| code.into_owned()),
            detail: refusal.to_string(),
        },
        other => StoreFailure::Other { detail: other.to_string() },
    }
}

/// SQLSTATE of a not-null violation.
pub open spec fn not_null_violation() -> Seq<char> {
    "23502"@
}

/// SQLSTATE of a foreign-key violation.
pub open spec fn foreign_key_violation() -> Seq<char> {
    "23503"@
}

/// SQLSTATE of a unique violation.
pub open spec fn unique_violation() -> Seq<char> {
    "23505"@
}

/// Whether `error` is what the store's failure `failure` maps to: no row is
/// not found; a not-null or foreign-key violation is a bad request; a
/// unique violation is a conflict; anything else is an internal error with
/// the failure's description.
pub open spec fn maps_to(failure: StoreFailure, error: AppError) -> bool {
    match failure {
        StoreFailure::RowNotFound => error is NotFound,
        StoreFailure::Database { code: Some(code), detail } => if code@ == not_null_violation()
            || code@ == foreign_key_violation() {
            error is BadRequest
        } else if code@ == unique_violation() {
            error is Conflict
        } else {
            error matches AppError::InternalServer(text) && text@ == detail@
        },
        StoreFailure::Database { code: None, detail } => error matches AppError::InternalServer(
            text,
        ) && text@ == detail@,
        StoreFailure::Other { detail } => error matches AppError::InternalServer(text) && text@
            == detail@,
    }
}

pub type AppResult<T> = Result<T, AppError>;

/// An application error: an HTTP-equivalent status and a human message.
#[derive(Debug, Clone, PartialEq, Eq)]
pub enum AppError {
    BadRequest,
    Unauthorized,
    Forbidden,
    NotFound,
    MethodNotAllowed,
    Conflict,
    UnprocessableEntity,
    /// Carries a detail for the log; the detail is not part of the message.
    InternalServer(String),
    NotImplemented,
    BadGateway,
    ServiceUnavailable,
}

impl AppError {
    /// The error that a failure of the store is answered with.
    pub fn from_store_failure(failure: StoreFailure) -> (error: AppError)
        ensures
            maps_to(failure, error),
    {
        match failure {
            StoreFailure::RowNotFound => AppError::NotFound,
            StoreFailure::Database { code: Some(code), detail } => {
                if code == "23502".to_owned() || code == "23503".to_owned() {
                    AppError::BadRequest
                } else if code == "23505".to_owned() {
                    AppError::Conflict
                } else {
                    AppError::InternalServer(detail)
                }
            },
            StoreFailure::Database { code: None, detail } => AppError::InternalServer(detail),
            StoreFailure::Other { detail } => AppError::InternalServer(detail),
        }
    }

    /// The error that an error of the store is answered with: what its
    /// variant and code map to.
    pub fn from_store(error: sqlx::Error) -> (mapped: AppError)
        ensures
            maps_to(failure_of(error), mapped),
    {
        AppError::from_store_failure(store_failure(error))
    }

    /// An internal error with the detail `detail`.
    pub fn internal(detail: &str) -> (error: AppError)
        ensures
            error matches AppError::InternalServer(text) && text@ == detail@,
    {
        AppError::InternalServer(detail.to_owned())
    }

    /// The status that stands for this error.
    pub open spec fn spec_status_code(self) -> u16 {
        match self {
            AppError::BadRequest => 400,
            AppError::Unauthorized => 401,
            AppError::Forbidden => 403,
            AppError::NotFound => 404,
            AppError::MethodNotAllowed => 405,
            AppError::Conflict => 409,
            AppError::UnprocessableEntity => 422,
            AppError::InternalServer(_) => 500,
            AppError::NotImplemented => 501,
            AppError::BadGateway => 502,
            AppError::ServiceUnavailable => 503,
        }
    }

    /// The text that describes this error to a client.
    pub open spec fn spec_message(self) -> Seq<char> {
        match self {
            AppError::BadRequest => "400 Bad Request"@,
            AppError::Unauthorized => "401 Unauthorized"@,
            AppError::Forbidden => "403 Forbidden"@,
            AppError::NotFound => "404 Not Found"@,
            AppError::MethodNotAllowed => "405 Method Not Allowed"@,
            AppError::Conflict => "409 Conflict"@,
            AppError::UnprocessableEntity => "422 Unprocessable Entity"@,
            AppError::InternalServer(_) => "500 Internal Server Error"@,
            AppError::NotImplemented => "501 Not Implemented"@,
            AppError::BadGateway => "502 Bad Gateway"@,
            AppError::ServiceUnavailable => "503 Service Unavailable"@,
        }
    }

    pub fn status_code(&self) -> (code: u16)
        ensures
            code == self.spec_status_code(),
    {
        match self {
            AppError::BadRequest => 400,
            AppError::Unauthorized => 401,
            AppError::Forbidden => 403,
            AppError::NotFound => 404,
            AppError::MethodNotAllowed => 405,
            AppError::Conflict => 409,
            AppError::UnprocessableEntity => 422,
            AppError::InternalServer(_) => 500,
            AppError::NotImplemented => 501,
            AppError::BadGateway => 502,
            AppError::ServiceUnavailable => 503,
        }
    }

    pub fn message(&self) -> (text: String)
        ensures
            text@ == self.spec_message(),
    {
        match self {
            AppError::BadRequest => "400 Bad Request".to_owned(),
            AppError::Unauthorized => "401 Unauthorized".to_owned(),
            AppError::Forbidden => "403 Forbidden".to_owned(),
            AppError::NotFound => "404 Not Found".to_owned(),
            AppError::MethodNotAllowed => "405 Method Not Allowed".to_owned(),
            AppError::Conflict => "409 Conflict".to_owned(),
            AppError::UnprocessableEntity => "422 Unprocessable Entity".to_owned(),
            AppError::InternalServer(_) => "500 Internal Server Error".to_owned(),
            AppError::NotImplemented => "501 Not Implemented".to_owned(),
            AppError::BadGateway => "502 Bad Gateway".to_owned(),
            AppError::ServiceUnavailable => "503 Service Unavailable".to_owned(),
        }
    }
}

} // verus!
