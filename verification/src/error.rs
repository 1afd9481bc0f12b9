//! The three kinds of failure and their wire form.
use vstd::prelude::*;
use vstd::string::StringExecFns;
use vstd::std_specs::convert::FromSpecImpl;

verus! {

/// What went wrong, without the message.
#[derive(Clone, Copy, Debug, PartialEq, Eq, Structural)]
pub enum ErrorKind {
    /// The caller's input is malformed or outside the legal set.
    InvalidParams,
    /// The one entity that was asked for does not exist.
    NotFound,
    /// The upstream service failed, or answered with text that fits no rule.
    Internal,
}

/// The model of an error: its kind and the characters of its message.
pub struct ErrorModel {
    pub kind: ErrorKind,
    pub message: Seq<char>,
}

/// The HTTP status that stands for a kind of error.
pub open spec fn status_of(kind: ErrorKind) -> u16 {
    match kind {
        ErrorKind::InvalidParams => 400,
        ErrorKind::NotFound => 404,
        ErrorKind::Internal => 500,
    }
}

/// The machine-readable code that stands for a kind of error.
pub open spec fn code_of(kind: ErrorKind) -> Seq<char> {
    match kind {
        ErrorKind::InvalidParams => "invalid_params"@,
        ErrorKind::NotFound => "not_found"@,
        ErrorKind::Internal => "internal_error"@,
    }
}

/// The words that a kind of error puts before its message.
pub open spec fn heading_of(kind: ErrorKind) -> Seq<char> {
    match kind {
        ErrorKind::InvalidParams => "Invalid parameters: "@,
        ErrorKind::NotFound => "Resource not found: "@,
        ErrorKind::Internal => "Internal error: "@,
    }
}

/// The full text of an error: the heading of its kind, then its message.
pub open spec fn text_of(e: ErrorModel) -> Seq<char> {
    heading_of(e.kind) + e.message
}

/// A failure to read a resource, as the classifier of upstream answers
/// reports it.
#[derive(Debug)]
pub enum ResourceReadError {
    InvalidParams(String),
    NotFound(String),
    Internal(String),
}

impl View for ResourceReadError {
    type V = ErrorModel;

    open spec fn view(&self) -> ErrorModel {
        match self {
            ResourceReadError::InvalidParams(m) => ErrorModel {
                kind: ErrorKind::InvalidParams,
                message: m@,
            },
            ResourceReadError::NotFound(m) => ErrorModel { kind: ErrorKind::NotFound, message: m@ },
            ResourceReadError::Internal(m) => ErrorModel { kind: ErrorKind::Internal, message: m@ },
        }
    }
}

impl ResourceReadError {
    /// The kind of this error.
    pub fn kind(&self) -> (k: ErrorKind)
        ensures
            k == self@.kind,
    {
        match self {
            ResourceReadError::InvalidParams(_) => ErrorKind::InvalidParams,
            ResourceReadError::NotFound(_) => ErrorKind::NotFound,
            ResourceReadError::Internal(_) => ErrorKind::Internal,
        }
    }

    /// The full text of this error: the heading of its kind, then its
    /// message.
    pub fn to_text(&self) -> (text: String)
        ensures
            text@ == text_of(self@),
    {
        match self {
            ResourceReadError::InvalidParams(m) => String::from_str("Invalid parameters: ").concat(
                m.as_str(),
            ),
            ResourceReadError::NotFound(m) => String::from_str("Resource not found: ").concat(
                m.as_str(),
            ),
            ResourceReadError::Internal(m) => String::from_str("Internal error: ").concat(
                m.as_str(),
            ),
        }
    }
}

/// A failure as the HTTP layer answers it.
#[derive(Debug)]
pub enum RestError {
    InvalidParams(String),
    NotFound(String),
    Internal(String),
}

impl View for RestError {
    type V = ErrorModel;

    open spec fn view(&self) -> ErrorModel {
        match self {
            RestError::InvalidParams(m) => ErrorModel {
                kind: ErrorKind::InvalidParams,
                message: m@,
            },
            RestError::NotFound(m) => ErrorModel { kind: ErrorKind::NotFound, message: m@ },
            RestError::Internal(m) => ErrorModel { kind: ErrorKind::Internal, message: m@ },
        }
    }
}

impl RestError {
    /// An error of the kind `InvalidParams` with the given message.
    pub fn invalid_params(message: &str) -> (e: RestError)
        ensures
            e@ == (ErrorModel { kind: ErrorKind::InvalidParams, message: message@ }),
    {
        RestError::InvalidParams(String::from_str(message))
    }

    /// The kind of this error.
    pub fn kind(&self) -> (k: ErrorKind)
        ensures
            k == self@.kind,
    {
        match self {
            RestError::InvalidParams(_) => ErrorKind::InvalidParams,
            RestError::NotFound(_) => ErrorKind::NotFound,
            RestError::Internal(_) => ErrorKind::Internal,
        }
    }

    /// The HTTP status of the answer: 400, 404 or 500, by the kind alone.
    pub fn status_code(&self) -> (status: u16)
        ensures
            status == status_of(self@.kind),
    {
        match self {
            RestError::InvalidParams(_) => 400,
            RestError::NotFound(_) => 404,
            RestError::Internal(_) => 500,
        }
    }

    /// The machine-readable code of the answer, by the kind alone.
    pub fn code(&self) -> (code: &'static str)
        ensures
            code@ == code_of(self@.kind),
    {
        match self {
            RestError::InvalidParams(_) => "invalid_params",
            RestError::NotFound(_) => "not_found",
            RestError::Internal(_) => "internal_error",
        }
    }

    /// The full text of this error: the heading of its kind, then its
    /// message.
    pub fn to_text(&self) -> (text: String)
        ensures
            text@ == text_of(self@),
    {
        match self {
            RestError::InvalidParams(m) => String::from_str("Invalid parameters: ").concat(
                m.as_str(),
            ),
            RestError::NotFound(m) => String::from_str("Resource not found: ").concat(m.as_str()),
            RestError::Internal(m) => String::from_str("Internal error: ").concat(m.as_str()),
        }
    }
}

impl From<ResourceReadError> for RestError {
    /// Keeps the kind and the message.
    fn from(value: ResourceReadError) -> (e: RestError)
        ensures
            e@ == value@,
    {
        match value {
            ResourceReadError::InvalidParams(message) => RestError::InvalidParams(message),
            ResourceReadError::NotFound(message) => RestError::NotFound(message),
            ResourceReadError::Internal(message) => RestError::Internal(message),
        }
    }
}

impl FromSpecImpl<ResourceReadError> for RestError {
    open spec fn obeys_from_spec() -> bool {
        true
    }

    open spec fn from_spec(value: ResourceReadError) -> RestError {
        match value {
            ResourceReadError::InvalidParams(message) => RestError::InvalidParams(message),
            ResourceReadError::NotFound(message) => RestError::NotFound(message),
            ResourceReadError::Internal(message) => RestError::Internal(message),
        }
    }
}

} // verus!
