//! How the outcome of a request is reported over HTTP.

use vstd::prelude::*;

verus! {

/// What is told of an error.
#[derive(Debug, Clone, PartialEq, Eq)]
pub struct ErrorReport {
    pub error: String,
    pub error_code: Option<String>,
    pub backtrace: Option<String>,
}

impl ErrorReport {
    /// The report of the error that `message` describes, without code or
    /// backtrace.
    pub fn new(message: String) -> (res: Self)
        ensures
            res.error == message,
            res.error_code is None,
            res.backtrace is None,
    {
        ErrorReport { error: message, error_code: None, backtrace: None }
    }
}

/// The kinds of failure that a request can end in.
#[derive(Debug, Clone, Copy, PartialEq, Eq, Hash, Structural)]
pub enum ApiErrorKind {
    /// The request's path could not be read.
    Path,
    /// An aggregate refused the command.
    RejectedCommand,
    /// What was asked for is not there.
    NotFound,
    /// Commands to one aggregate collided too often.
    AggregateConflict,
    /// The event store or a read model failed.
    Persistence,
    /// The weather provider failed.
    Provider,
    /// A URL could not be read.
    ParseUrl,
    /// Input or output failed.
    IO,
    /// The request's body could not be read.
    Json,
    /// The HTTP engine failed.
    HttpEngine,
    /// A task could not be joined.
    Join,
    /// Anything else.
    Other,
}

/// How an error is reported.
#[derive(Debug, Clone, PartialEq, Eq)]
pub enum HttpError {
    BadRequest { error: ErrorReport },
    NotFound { message: String },
    Internal { error: ErrorReport },
}

impl HttpError {
    /// How a failure of kind `kind` that `message` describes is reported: a
    /// path that could not be read and a refused command are the caller's
    /// fault, what is not there is not found, and everything else is the
    /// server's fault.
    pub fn from_error(kind: ApiErrorKind, message: String) -> (res: Self)
        ensures
            match kind {
                ApiErrorKind::Path | ApiErrorKind::RejectedCommand => res
                    matches HttpError::BadRequest { error } && error.error == message
                    && error.error_code is None && error.backtrace is None,
                ApiErrorKind::NotFound => res == (HttpError::NotFound { message }),
                _ => res matches HttpError::Internal { error } && error.error == message
                    && error.error_code is None && error.backtrace is None,
            },
    {
        match kind {
            ApiErrorKind::Path | ApiErrorKind::RejectedCommand => HttpError::BadRequest {
                error: ErrorReport::new(message),
            },
            ApiErrorKind::NotFound => HttpError::NotFound { message },
            _ => HttpError::Internal { error: ErrorReport::new(message) },
        }
    }

    /// The HTTP status of each way to report an error.
    pub open spec fn http_status(&self) -> u16 {
        match self {
            HttpError::BadRequest { .. } => 400,
            HttpError::NotFound { .. } => 404,
            HttpError::Internal { .. } => 500,
        }
    }

    /// The HTTP status of the report.
    pub fn status_code(&self) -> (res: u16)
        ensures
            res == self.http_status(),
    {
        match self {
            HttpError::BadRequest { .. } => 400,
            HttpError::NotFound { .. } => 404,
            HttpError::Internal { .. } => 500,
        }
    }
}

/// What a read model answered: the view where there is one.
#[derive(Debug, Clone, PartialEq, Eq)]
pub struct OptionalResult<T>(pub Option<T>);

impl<T> OptionalResult<T> {
    /// The HTTP status of the answer: 200 with a view, 404 without.
    pub fn status_code(&self) -> (res: u16)
        ensures
            res == if self.0 is Some {
                200u16
            } else {
                404u16
            },
    {
        match &self.0 {
            Some(_) => 200,
            None => 404,
        }
    }
}

/// The id of an update, as a request names it.
#[derive(Debug, Clone, PartialEq, Eq, Hash)]
pub struct UpdateProcessId(String);

impl View for UpdateProcessId {
    type V = Seq<char>;

    closed spec fn view(&self) -> Seq<char> {
        self.0@
    }
}

impl UpdateProcessId {
    /// Wraps `id` as the id of an update.
    pub fn new(id: String) -> (res: Self)
        ensures
            res@ == id@,
    {
        UpdateProcessId(id)
    }

    /// The id as text.
    pub fn as_str(&self) -> (res: &str)
        ensures
            res@ == self@,
    {
        self.0.as_str()
    }
}

/// How a failure on the way to a handler is reported.
#[derive(Debug, Clone, Copy, PartialEq, Eq, Hash, Structural)]
pub enum TransportFailure {
    /// The request took too long.
    Timeout,
    /// Anything else.
    Other,
}

impl TransportFailure {
    /// The HTTP status of the failure: 408 for a request that took too long,
    /// else 500.
    pub fn status_code(&self) -> (res: u16)
        ensures
            res == match self {
                TransportFailure::Timeout => 408u16,
                TransportFailure::Other => 500u16,
            },
    {
        match self {
            TransportFailure::Timeout => 408,
            TransportFailure::Other => 500,
        }
    }
}

} // verus!
