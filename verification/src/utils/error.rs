//! The error type that every operation of the library reports.

use vstd::prelude::*;

verus! {

/// The class of a failure, which fixes the status the caller answers with.
#[derive(Debug, Clone, Copy, PartialEq, Eq, Structural)]
pub enum ErrorKind {
    BadRequest,
    Unauthorized,
    NotFound,
    Conflict,
    InternalServerError,
}

/// Application-wide error type: a class and the message shown to the caller.
#[derive(Debug, Clone, PartialEq, Eq)]
pub enum AppError {
    BadRequest(String),
    Unauthorized(String),
    NotFound(String),
    Conflict(String),
    InternalServerError(String),
}

/// An error as contracts see it: its class and the text of its message.
pub struct ErrorView {
    pub kind: ErrorKind,
    pub message: Seq<char>,
}

impl ErrorView {
    /// An unexpected failure with a message that gives no detail away.
    pub open spec fn internal(message: Seq<char>) -> ErrorView {
        ErrorView { kind: ErrorKind::InternalServerError, message }
    }

    /// Bad credentials or a token that is not accepted.
    pub open spec fn unauthorized(message: Seq<char>) -> ErrorView {
        ErrorView { kind: ErrorKind::Unauthorized, message }
    }

    /// An identity that exists already.
    pub open spec fn conflict(message: Seq<char>) -> ErrorView {
        ErrorView { kind: ErrorKind::Conflict, message }
    }
}

/// A result as contracts see it: the value as it is, an error by its view.
pub open spec fn outcome<T>(r: Result<T, AppError>) -> Result<T, ErrorView> {
    match r {
        Ok(v) => Ok(v),
        Err(e) => Err(e@),
    }
}

/// A result that carries text as contracts see it: both sides by their views.
pub open spec fn text_outcome(r: Result<String, AppError>) -> Result<Seq<char>, ErrorView> {
    match r {
        Ok(s) => Ok(s@),
        Err(e) => Err(e@),
    }
}

/// The HTTP status that answers a failure of the given class.
pub open spec fn status_of(kind: ErrorKind) -> int {
    match kind {
        ErrorKind::BadRequest => 400,
        ErrorKind::Unauthorized => 401,
        ErrorKind::NotFound => 404,
        ErrorKind::Conflict => 409,
        ErrorKind::InternalServerError => 500,
    }
}

impl View for AppError {
    type V = ErrorView;

    open spec fn view(&self) -> ErrorView {
        match *self {
            AppError::BadRequest(m) => ErrorView { kind: ErrorKind::BadRequest, message: m@ },
            AppError::Unauthorized(m) => ErrorView { kind: ErrorKind::Unauthorized, message: m@ },
            AppError::NotFound(m) => ErrorView { kind: ErrorKind::NotFound, message: m@ },
            AppError::Conflict(m) => ErrorView { kind: ErrorKind::Conflict, message: m@ },
            AppError::InternalServerError(m) => ErrorView {
                kind: ErrorKind::InternalServerError,
                message: m@,
            },
        }
    }
}

impl AppError {
    /// The class of this error.
    pub fn kind(&self) -> (k: ErrorKind)
        ensures
            k == self@.kind,
    {
        match self {
            AppError::BadRequest(_) => ErrorKind::BadRequest,
            AppError::Unauthorized(_) => ErrorKind::Unauthorized,
            AppError::NotFound(_) => ErrorKind::NotFound,
            AppError::Conflict(_) => ErrorKind::Conflict,
            AppError::InternalServerError(_) => ErrorKind::InternalServerError,
        }
    }

    /// The message of this error, exactly as it was given.
    pub fn message(&self) -> (m: &String)
        ensures
            m@ == self@.message,
    {
        match self {
            AppError::BadRequest(m) => m,
            AppError::Unauthorized(m) => m,
            AppError::NotFound(m) => m,
            AppError::Conflict(m) => m,
            AppError::InternalServerError(m) => m,
        }
    }

    /// The HTTP status code that the transport layer answers with.
    pub fn status_code(&self) -> (code: u16)
        ensures
            code == status_of(self@.kind),
    {
        match self {
            AppError::BadRequest(_) => 400,
            AppError::Unauthorized(_) => 401,
            AppError::NotFound(_) => 404,
            AppError::Conflict(_) => 409,
            AppError::InternalServerError(_) => 500,
        }
    }
}

} // verus!
