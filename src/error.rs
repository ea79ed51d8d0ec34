//! The errors that the booking operations report.

use vstd::prelude::*;
use vstd::string::StringExecFns;

verus! {

/// An error, with a message for the caller.
#[derive(Debug, Clone)]
pub enum AppError {
    BadRequest(String),
    Unauthorized(String),
    Forbidden(String),
    NotFound(String),
    Conflict(String),
    InternalServerError(String),
    DatabaseError(String),
}

/// What kind of failure an error reports, without its message.
#[derive(Debug, Clone, Copy, PartialEq, Eq, Structural)]
pub enum ErrorKind {
    BadRequest,
    Unauthorized,
    Forbidden,
    NotFound,
    Conflict,
    InternalServerError,
    DatabaseError,
}

/// The kind of `e`.
pub open spec fn kind_of(e: AppError) -> ErrorKind {
    match e {
        AppError::BadRequest(_) => ErrorKind::BadRequest,
        AppError::Unauthorized(_) => ErrorKind::Unauthorized,
        AppError::Forbidden(_) => ErrorKind::Forbidden,
        AppError::NotFound(_) => ErrorKind::NotFound,
        AppError::Conflict(_) => ErrorKind::Conflict,
        AppError::InternalServerError(_) => ErrorKind::InternalServerError,
        AppError::DatabaseError(_) => ErrorKind::DatabaseError,
    }
}

/// The message that `e` carries.
pub open spec fn message_of(e: AppError) -> Seq<char> {
    match e {
        AppError::BadRequest(m) => m@,
        AppError::Unauthorized(m) => m@,
        AppError::Forbidden(m) => m@,
        AppError::NotFound(m) => m@,
        AppError::Conflict(m) => m@,
        AppError::InternalServerError(m) => m@,
        AppError::DatabaseError(m) => m@,
    }
}

/// The HTTP status that answers a failure of kind `k`.
pub open spec fn status_for(k: ErrorKind) -> u16 {
    match k {
        ErrorKind::BadRequest => 400,
        ErrorKind::Unauthorized => 401,
        ErrorKind::Forbidden => 403,
        ErrorKind::NotFound => 404,
        ErrorKind::Conflict => 409,
        ErrorKind::InternalServerError => 500,
        ErrorKind::DatabaseError => 500,
    }
}

/// The words that open the description of a failure of kind `k`.
pub open spec fn title_of(k: ErrorKind) -> Seq<char> {
    match k {
        ErrorKind::BadRequest => "Bad Request: "@,
        ErrorKind::Unauthorized => "Unauthorized: "@,
        ErrorKind::Forbidden => "Forbidden: "@,
        ErrorKind::NotFound => "Not Found: "@,
        ErrorKind::Conflict => "Conflict: "@,
        ErrorKind::InternalServerError => "Internal Server Error: "@,
        ErrorKind::DatabaseError => "Database Error: "@,
    }
}

/// Whether the outcome `r` agrees with the expected outcome `o`: the same
/// value on success, the same kind of error on failure.
pub open spec fn agrees<T>(r: Result<T, AppError>, o: Result<T, ErrorKind>) -> bool {
    match (r, o) {
        (Ok(a), Ok(b)) => a == b,
        (Err(e), Err(k)) => kind_of(e) == k,
        _ => false,
    }
}

impl AppError {
    /// The kind of this error.
    pub fn kind(&self) -> (r: ErrorKind)
        ensures
            r == kind_of(*self),
    {
        match self {
            AppError::BadRequest(_) => ErrorKind::BadRequest,
            AppError::Unauthorized(_) => ErrorKind::Unauthorized,
            AppError::Forbidden(_) => ErrorKind::Forbidden,
            AppError::NotFound(_) => ErrorKind::NotFound,
            AppError::Conflict(_) => ErrorKind::Conflict,
            AppError::InternalServerError(_) => ErrorKind::InternalServerError,
            AppError::DatabaseError(_) => ErrorKind::DatabaseError,
        }
    }

    /// The HTTP status that answers this error.
    pub fn status_code(&self) -> (r: u16)
        ensures
            r == status_for(kind_of(*self)),
    {
        match self {
            AppError::BadRequest(_) => 400,
            AppError::Unauthorized(_) => 401,
            AppError::Forbidden(_) => 403,
            AppError::NotFound(_) => 404,
            AppError::Conflict(_) => 409,
            AppError::InternalServerError(_) => 500,
            AppError::DatabaseError(_) => 500,
        }
    }

    /// The message for the caller.
    pub fn message(&self) -> (r: &String)
        ensures
            r@ == message_of(*self),
    {
        match self {
            AppError::BadRequest(m) => m,
            AppError::Unauthorized(m) => m,
            AppError::Forbidden(m) => m,
            AppError::NotFound(m) => m,
            AppError::Conflict(m) => m,
            AppError::InternalServerError(m) => m,
            AppError::DatabaseError(m) => m,
        }
    }

    /// The kind and the message in one line, as in `Not Found: no such booking`.
    pub fn describe(&self) -> (r: String)
        ensures
            r@ == title_of(kind_of(*self)) + message_of(*self),
    {
        let title = match self {
            AppError::BadRequest(_) => String::from_str("Bad Request: "),
            AppError::Unauthorized(_) => String::from_str("Unauthorized: "),
            AppError::Forbidden(_) => String::from_str("Forbidden: "),
            AppError::NotFound(_) => String::from_str("Not Found: "),
            AppError::Conflict(_) => String::from_str("Conflict: "),
            AppError::InternalServerError(_) => String::from_str("Internal Server Error: "),
            AppError::DatabaseError(_) => String::from_str("Database Error: "),
        };
        title.concat(self.message().as_str())
    }
}

} // verus!
