use vstd::prelude::*;
use vstd::string::*;

use crate::types::ErrorResponse;

verus! {

/// Why a coordinator operation was refused; each variant carries a message.
#[derive(Debug)]
pub enum CoordinatorError {
    BadRequest(String),
    Unauthorized(String),
    Forbidden(String),
    NotFound(String),
    Conflict(String),
    Gone(String),
    Unprocessable(String),
    Unavailable(String),
}

/// The variant of a [`CoordinatorError`], without its message.
#[derive(Clone, Copy, Debug, PartialEq, Eq)]
pub enum ErrorKind {
    BadRequest,
    Unauthorized,
    Forbidden,
    NotFound,
    Conflict,
    Gone,
    Unprocessable,
    Unavailable,
}

/// The kind and message of the error a result carries, `None` for success.
pub open spec fn failure<T>(res: Result<T, CoordinatorError>) -> Option<(ErrorKind, Seq<char>)> {
    match res {
        Ok(_) => None,
        Err(e) => Some((e.kind(), e.message())),
    }
}

/// The machine-readable code reported for each kind of error.
pub open spec fn code_text(kind: ErrorKind) -> Seq<char> {
    match kind {
        ErrorKind::BadRequest => "bad_request"@,
        ErrorKind::Unauthorized => "unauthorized"@,
        ErrorKind::Forbidden => "forbidden"@,
        ErrorKind::NotFound => "not_found"@,
        ErrorKind::Conflict => "conflict"@,
        ErrorKind::Gone => "gone"@,
        ErrorKind::Unprocessable => "unprocessable"@,
        ErrorKind::Unavailable => "unavailable"@,
    }
}

/// The HTTP status reported for each kind of error.
pub open spec fn http_status(kind: ErrorKind) -> u16 {
    match kind {
        ErrorKind::BadRequest => 400,
        ErrorKind::Unauthorized => 401,
        ErrorKind::Forbidden => 403,
        ErrorKind::NotFound => 404,
        ErrorKind::Conflict => 409,
        ErrorKind::Gone => 410,
        ErrorKind::Unprocessable => 422,
        ErrorKind::Unavailable => 503,
    }
}

/// The human-readable prefix that precedes the message of each kind of error.
pub open spec fn display_prefix(kind: ErrorKind) -> Seq<char> {
    match kind {
        ErrorKind::BadRequest => "malformed request: "@,
        ErrorKind::Unauthorized => "invalid signature: "@,
        ErrorKind::Forbidden => "authorization failed: "@,
        ErrorKind::NotFound => "not found: "@,
        ErrorKind::Conflict => "conflict: "@,
        ErrorKind::Gone => "expired request: "@,
        ErrorKind::Unprocessable => "unknown reader: "@,
        ErrorKind::Unavailable => "backend unavailable: "@,
    }
}

impl CoordinatorError {
    pub open spec fn kind(&self) -> ErrorKind {
        match self {
            CoordinatorError::BadRequest(_) => ErrorKind::BadRequest,
            CoordinatorError::Unauthorized(_) => ErrorKind::Unauthorized,
            CoordinatorError::Forbidden(_) => ErrorKind::Forbidden,
            CoordinatorError::NotFound(_) => ErrorKind::NotFound,
            CoordinatorError::Conflict(_) => ErrorKind::Conflict,
            CoordinatorError::Gone(_) => ErrorKind::Gone,
            CoordinatorError::Unprocessable(_) => ErrorKind::Unprocessable,
            CoordinatorError::Unavailable(_) => ErrorKind::Unavailable,
        }
    }

    pub open spec fn message(&self) -> Seq<char> {
        match self {
            CoordinatorError::BadRequest(m) => m@,
            CoordinatorError::Unauthorized(m) => m@,
            CoordinatorError::Forbidden(m) => m@,
            CoordinatorError::NotFound(m) => m@,
            CoordinatorError::Conflict(m) => m@,
            CoordinatorError::Gone(m) => m@,
            CoordinatorError::Unprocessable(m) => m@,
            CoordinatorError::Unavailable(m) => m@,
        }
    }

    /// Builds the error of the given kind with the given message.
    pub fn with_message(kind: ErrorKind, message: String) -> (res: CoordinatorError)
        ensures
            res.kind() == kind,
            res.message() == message@,
    {
        match kind {
            ErrorKind::BadRequest => CoordinatorError::BadRequest(message),
            ErrorKind::Unauthorized => CoordinatorError::Unauthorized(message),
            ErrorKind::Forbidden => CoordinatorError::Forbidden(message),
            ErrorKind::NotFound => CoordinatorError::NotFound(message),
            ErrorKind::Conflict => CoordinatorError::Conflict(message),
            ErrorKind::Gone => CoordinatorError::Gone(message),
            ErrorKind::Unprocessable => CoordinatorError::Unprocessable(message),
            ErrorKind::Unavailable => CoordinatorError::Unavailable(message),
        }
    }

    /// Builds the error of the given kind with a fixed message.
    pub fn new(kind: ErrorKind, message: &str) -> (res: CoordinatorError)
        ensures
            res.kind() == kind,
            res.message() == message@,
    {
        CoordinatorError::with_message(kind, String::from_str(message))
    }

    pub fn error_kind(&self) -> (res: ErrorKind)
        ensures
            res == self.kind(),
    {
        match self {
            CoordinatorError::BadRequest(_) => ErrorKind::BadRequest,
            CoordinatorError::Unauthorized(_) => ErrorKind::Unauthorized,
            CoordinatorError::Forbidden(_) => ErrorKind::Forbidden,
            CoordinatorError::NotFound(_) => ErrorKind::NotFound,
            CoordinatorError::Conflict(_) => ErrorKind::Conflict,
            CoordinatorError::Gone(_) => ErrorKind::Gone,
            CoordinatorError::Unprocessable(_) => ErrorKind::Unprocessable,
            CoordinatorError::Unavailable(_) => ErrorKind::Unavailable,
        }
    }

    /// The message carried by the error.
    pub fn message_text(&self) -> (res: &String)
        ensures
            res@ == self.message(),
    {
        match self {
            CoordinatorError::BadRequest(m) => m,
            CoordinatorError::Unauthorized(m) => m,
            CoordinatorError::Forbidden(m) => m,
            CoordinatorError::NotFound(m) => m,
            CoordinatorError::Conflict(m) => m,
            CoordinatorError::Gone(m) => m,
            CoordinatorError::Unprocessable(m) => m,
            CoordinatorError::Unavailable(m) => m,
        }
    }

    /// The HTTP status with which the error is answered.
    pub fn status_code(&self) -> (res: u16)
        ensures
            res == http_status(self.kind()),
    {
        match self {
            CoordinatorError::BadRequest(_) => 400,
            CoordinatorError::Unauthorized(_) => 401,
            CoordinatorError::Forbidden(_) => 403,
            CoordinatorError::NotFound(_) => 404,
            CoordinatorError::Conflict(_) => 409,
            CoordinatorError::Gone(_) => 410,
            CoordinatorError::Unprocessable(_) => 422,
            CoordinatorError::Unavailable(_) => 503,
        }
    }

    /// The machine-readable code of the error.
    pub fn code(&self) -> (res: &'static str)
        ensures
            res@ == code_text(self.kind()),
    {
        match self {
            CoordinatorError::BadRequest(_) => "bad_request",
            CoordinatorError::Unauthorized(_) => "unauthorized",
            CoordinatorError::Forbidden(_) => "forbidden",
            CoordinatorError::NotFound(_) => "not_found",
            CoordinatorError::Conflict(_) => "conflict",
            CoordinatorError::Gone(_) => "gone",
            CoordinatorError::Unprocessable(_) => "unprocessable",
            CoordinatorError::Unavailable(_) => "unavailable",
        }
    }

    /// The human-readable description: a prefix naming the kind, then the message.
    pub fn describe(&self) -> (res: String)
        ensures
            res@ == display_prefix(self.kind()) + self.message(),
    {
        let prefix = match self {
            CoordinatorError::BadRequest(_) => "malformed request: ",
            CoordinatorError::Unauthorized(_) => "invalid signature: ",
            CoordinatorError::Forbidden(_) => "authorization failed: ",
            CoordinatorError::NotFound(_) => "not found: ",
            CoordinatorError::Conflict(_) => "conflict: ",
            CoordinatorError::Gone(_) => "expired request: ",
            CoordinatorError::Unprocessable(_) => "unknown reader: ",
            CoordinatorError::Unavailable(_) => "backend unavailable: ",
        };
        String::from_str(prefix).concat(self.message_text().as_str())
    }

    /// The JSON body with which the error is answered.
    pub fn to_error_response(&self) -> (res: ErrorResponse)
        ensures
            res.code@ == code_text(self.kind()),
            res.message@ == display_prefix(self.kind()) + self.message(),
    {
        ErrorResponse { code: String::from_str(self.code()), message: self.describe() }
    }
}

} // verus!
