//! The error taxonomy shared by every component.

use vstd::prelude::*;
use vstd::string::*;

verus! {

/// Unified error type. Each variant carries a human-readable detail.
#[derive(Debug, Clone)]
pub enum AppError {
    /// A file or device could not be read or written.
    Io(String),
    /// The store refused or failed an operation.
    Database(String),
    /// An upstream endpoint could not be reached, or the whole pool is exhausted.
    Network(String),
    /// A record, code, price or date is malformed.
    Parse(String),
    /// A setting is invalid, or a job conflicts with one already running.
    Config(String),
    /// An aggregation was asked over nothing.
    NotFound(String),
    /// An unexpected failure inside a component.
    Internal(String),
}

/// What kind of failure an [`AppError`] reports, without its detail.
#[derive(Debug, Clone, Copy, PartialEq, Eq, Structural)]
pub enum ErrorKind {
    Io,
    Database,
    Network,
    Parse,
    Config,
    NotFound,
    Internal,
}

impl AppError {
    /// The kind of this error.
    pub open spec fn spec_kind(&self) -> ErrorKind {
        match self {
            AppError::Io(_) => ErrorKind::Io,
            AppError::Database(_) => ErrorKind::Database,
            AppError::Network(_) => ErrorKind::Network,
            AppError::Parse(_) => ErrorKind::Parse,
            AppError::Config(_) => ErrorKind::Config,
            AppError::NotFound(_) => ErrorKind::NotFound,
            AppError::Internal(_) => ErrorKind::Internal,
        }
    }

    /// The detail text carried by this error.
    pub open spec fn spec_detail(&self) -> Seq<char> {
        match self {
            AppError::Io(d) => d@,
            AppError::Database(d) => d@,
            AppError::Network(d) => d@,
            AppError::Parse(d) => d@,
            AppError::Config(d) => d@,
            AppError::NotFound(d) => d@,
            AppError::Internal(d) => d@,
        }
    }

    /// The label that precedes the detail in the rendered message.
    pub open spec fn spec_label(kind: ErrorKind) -> Seq<char> {
        match kind {
            ErrorKind::Io => "io error: "@,
            ErrorKind::Database => "database error: "@,
            ErrorKind::Network => "network error: "@,
            ErrorKind::Parse => "parse error: "@,
            ErrorKind::Config => "config error: "@,
            ErrorKind::NotFound => "not found: "@,
            ErrorKind::Internal => "internal error: "@,
        }
    }

    #[verifier::when_used_as_spec(spec_kind)]
    pub fn kind(&self) -> (k: ErrorKind)
        ensures
            k == self.spec_kind(),
    {
        match self {
            AppError::Io(_) => ErrorKind::Io,
            AppError::Database(_) => ErrorKind::Database,
            AppError::Network(_) => ErrorKind::Network,
            AppError::Parse(_) => ErrorKind::Parse,
            AppError::Config(_) => ErrorKind::Config,
            AppError::NotFound(_) => ErrorKind::NotFound,
            AppError::Internal(_) => ErrorKind::Internal,
        }
    }

    /// Renders the error as its label followed by its detail.
    pub fn message(&self) -> (text: String)
        ensures
            text@ == Self::spec_label(self.spec_kind()) + self.spec_detail(),
    {
        match self {
            AppError::Io(d) => String::from_str("io error: ").concat(d.as_str()),
            AppError::Database(d) => String::from_str("database error: ").concat(d.as_str()),
            AppError::Network(d) => String::from_str("network error: ").concat(d.as_str()),
            AppError::Parse(d) => String::from_str("parse error: ").concat(d.as_str()),
            AppError::Config(d) => String::from_str("config error: ").concat(d.as_str()),
            AppError::NotFound(d) => String::from_str("not found: ").concat(d.as_str()),
            AppError::Internal(d) => String::from_str("internal error: ").concat(d.as_str()),
        }
    }
}

} // verus!
