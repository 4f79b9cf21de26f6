//! The domain error taxonomy. Every failure the server reports to a client
//! is one of six kinds, each with a human-readable message and an HTTP status.

use vstd::prelude::*;

verus! {

/// The six kinds of domain error.
#[derive(Clone, Copy, Debug, PartialEq, Eq, Structural)]
pub enum ErrorKind {
    BadRequest,
    Authentication,
    Forbidden,
    NotFound,
    Conflict,
    Internal,
}

/// A domain error: its kind is the variant, its message the payload.
#[derive(Debug)]
pub enum AppError {
    /// Validation failure (400).
    BadRequest(String),
    /// Missing, invalid or expired credentials (401).
    Authentication(String),
    /// Role check failed, banned user, bad signature (403).
    Forbidden(String),
    /// Missing entity, or an id outside its channel (404).
    NotFound(String),
    /// Username or email already in use (409).
    Conflict(String),
    /// Persistence, media-worker or storage failure (500).
    Internal(String),
}

/// The HTTP status that a kind of error maps to.
pub open spec fn status_of(kind: ErrorKind) -> int {
    match kind {
        ErrorKind::BadRequest => 400,
        ErrorKind::Authentication => 401,
        ErrorKind::Forbidden => 403,
        ErrorKind::NotFound => 404,
        ErrorKind::Conflict => 409,
        ErrorKind::Internal => 500,
    }
}

impl AppError {
    /// The kind of this error.
    pub open spec fn kind(&self) -> ErrorKind {
        match self {
            AppError::BadRequest(_) => ErrorKind::BadRequest,
            AppError::Authentication(_) => ErrorKind::Authentication,
            AppError::Forbidden(_) => ErrorKind::Forbidden,
            AppError::NotFound(_) => ErrorKind::NotFound,
            AppError::Conflict(_) => ErrorKind::Conflict,
            AppError::Internal(_) => ErrorKind::Internal,
        }
    }

    /// The characters of this error's message.
    pub open spec fn text(&self) -> Seq<char> {
        match self {
            AppError::BadRequest(m) => m@,
            AppError::Authentication(m) => m@,
            AppError::Forbidden(m) => m@,
            AppError::NotFound(m) => m@,
            AppError::Conflict(m) => m@,
            AppError::Internal(m) => m@,
        }
    }

    /// True when this error has the given kind and message.
    pub open spec fn is(&self, kind: ErrorKind, text: Seq<char>) -> bool {
        self.kind() == kind && self.text() == text
    }

    pub fn bad_request(message: &str) -> (e: Self)
        ensures
            e.is(ErrorKind::BadRequest, message@),
    {
        AppError::BadRequest(String::from_str(message))
    }

    pub fn authentication(message: &str) -> (e: Self)
        ensures
            e.is(ErrorKind::Authentication, message@),
    {
        AppError::Authentication(String::from_str(message))
    }

    pub fn forbidden(message: &str) -> (e: Self)
        ensures
            e.is(ErrorKind::Forbidden, message@),
    {
        AppError::Forbidden(String::from_str(message))
    }

    pub fn not_found(message: &str) -> (e: Self)
        ensures
            e.is(ErrorKind::NotFound, message@),
    {
        AppError::NotFound(String::from_str(message))
    }

    pub fn conflict(message: &str) -> (e: Self)
        ensures
            e.is(ErrorKind::Conflict, message@),
    {
        AppError::Conflict(String::from_str(message))
    }

    pub fn internal(message: &str) -> (e: Self)
        ensures
            e.is(ErrorKind::Internal, message@),
    {
        AppError::Internal(String::from_str(message))
    }

    /// The kind of this error, as a value.
    pub fn error_kind(&self) -> (k: ErrorKind)
        ensures
            k == self.kind(),
    {
        match self {
            AppError::BadRequest(_) => ErrorKind::BadRequest,
            AppError::Authentication(_) => ErrorKind::Authentication,
            AppError::Forbidden(_) => ErrorKind::Forbidden,
            AppError::NotFound(_) => ErrorKind::NotFound,
            AppError::Conflict(_) => ErrorKind::Conflict,
            AppError::Internal(_) => ErrorKind::Internal,
        }
    }

    /// The message carried by this error.
    pub fn message(&self) -> (m: String)
        ensures
            m@ == self.text(),
    {
        match self {
            AppError::BadRequest(m) => m.clone(),
            AppError::Authentication(m) => m.clone(),
            AppError::Forbidden(m) => m.clone(),
            AppError::NotFound(m) => m.clone(),
            AppError::Conflict(m) => m.clone(),
            AppError::Internal(m) => m.clone(),
        }
    }

    /// The HTTP status this error is reported with.
    pub fn status_code(&self) -> (code: u16)
        ensures
            code == status_of(self.kind()),
    {
        match self {
            AppError::BadRequest(_) => 400,
            AppError::Authentication(_) => 401,
            AppError::Forbidden(_) => 403,
            AppError::NotFound(_) => 404,
            AppError::Conflict(_) => 409,
            AppError::Internal(_) => 500,
        }
    }

    /// A copy of this error: same kind, same message.
    pub fn duplicate(&self) -> (e: Self)
        ensures
            e == *self,
    {
        match self {
            AppError::BadRequest(m) => AppError::BadRequest(m.clone()),
            AppError::Authentication(m) => AppError::Authentication(m.clone()),
            AppError::Forbidden(m) => AppError::Forbidden(m.clone()),
            AppError::NotFound(m) => AppError::NotFound(m.clone()),
            AppError::Conflict(m) => AppError::Conflict(m.clone()),
            AppError::Internal(m) => AppError::Internal(m.clone()),
        }
    }
}

} // verus!
