use vstd::prelude::*;
use vstd::string::*;

verus! {

/// Failure of a service operation.
///
/// `Validation` is a caller error, `NotFound` a missing entity or one outside the
/// requested scope, `Conflict` is reserved, and `Database` / `Internal` are failures
/// of storage or of an invariant.
#[derive(Debug)]
pub enum AppError {
    Validation { message: String },
    NotFound { message: String },
    Conflict { message: String },
    Database { message: String },
    Internal { message: String },
}

pub type AppResult<T> = Result<T, AppError>;

impl AppError {
    pub fn validation(message: &str) -> (r: AppError)
        ensures
            r is Validation,
            r->Validation_message@ == message@,
    {
        AppError::Validation { message: String::from_str(message) }
    }

    pub fn not_found(message: &str) -> (r: AppError)
        ensures
            r is NotFound,
            r->NotFound_message@ == message@,
    {
        AppError::NotFound { message: String::from_str(message) }
    }

    pub fn conflict(message: &str) -> (r: AppError)
        ensures
            r is Conflict,
            r->Conflict_message@ == message@,
    {
        AppError::Conflict { message: String::from_str(message) }
    }

    pub fn database(message: &str) -> (r: AppError)
        ensures
            r is Database,
            r->Database_message@ == message@,
    {
        AppError::Database { message: String::from_str(message) }
    }

    pub fn internal(message: &str) -> (r: AppError)
        ensures
            r is Internal,
            r->Internal_message@ == message@,
    {
        AppError::Internal { message: String::from_str(message) }
    }

    /// The message carried by the error, whatever its kind.
    pub fn message(&self) -> (r: &String)
        ensures
            r == match self {
                AppError::Validation { message } => message,
                AppError::NotFound { message } => message,
                AppError::Conflict { message } => message,
                AppError::Database { message } => message,
                AppError::Internal { message } => message,
            },
    {
        match self {
            AppError::Validation { message } => message,
            AppError::NotFound { message } => message,
            AppError::Conflict { message } => message,
            AppError::Database { message } => message,
            AppError::Internal { message } => message,
        }
    }
}

/// The result failed with a validation error.
pub open spec fn is_validation<T>(r: AppResult<T>) -> bool {
    r is Err && r->Err_0 is Validation
}

/// The result failed with a not-found error.
pub open spec fn is_not_found<T>(r: AppResult<T>) -> bool {
    r is Err && r->Err_0 is NotFound
}

/// The result failed with a storage error.
pub open spec fn is_database<T>(r: AppResult<T>) -> bool {
    r is Err && r->Err_0 is Database
}

} // verus!
