//! The error kinds that the generator reports.

use vstd::prelude::*;
use vstd::string::StringExecFns;

verus! {

/// What went wrong, with a message that names the offending input.
#[derive(Debug, PartialEq)]
pub enum CtGenError {
    /// Persisted state cannot be created or reached.
    InitError(String),
    /// Bad input: a missing directive, an unknown table, an empty required answer.
    ValidationError(String),
    /// Everything else: a failed render, failed output, a task that is not ready.
    RuntimeError(String),
    /// The data source could not be reached or queried.
    DatabaseError(String),
}

/// The kind of an error, without its message.
#[derive(Clone, Copy, Debug, PartialEq, Eq, Structural)]
pub enum CtGenErrorKind {
    Init,
    Validation,
    Runtime,
    Database,
}

/// An error as its kind and the text of its message.
pub struct CtGenErrorView {
    pub kind: CtGenErrorKind,
    pub message: Seq<char>,
}

impl View for CtGenError {
    type V = CtGenErrorView;

    open spec fn view(&self) -> CtGenErrorView {
        CtGenErrorView { kind: self.kind(), message: self.message() }
    }
}

impl CtGenErrorView {
    /// The validation error with the message `message`.
    pub open spec fn validation(message: Seq<char>) -> CtGenErrorView {
        CtGenErrorView { kind: CtGenErrorKind::Validation, message }
    }

    /// The runtime error with the message `message`.
    pub open spec fn runtime(message: Seq<char>) -> CtGenErrorView {
        CtGenErrorView { kind: CtGenErrorKind::Runtime, message }
    }

    /// The initialization error with the message `message`.
    pub open spec fn init(message: Seq<char>) -> CtGenErrorView {
        CtGenErrorView { kind: CtGenErrorKind::Init, message }
    }

    /// The database error with the message `message`.
    pub open spec fn database(message: Seq<char>) -> CtGenErrorView {
        CtGenErrorView { kind: CtGenErrorKind::Database, message }
    }
}

impl Clone for CtGenError {
    fn clone(&self) -> (r: Self)
        ensures
            r@ == self@,
    {
        match self {
            CtGenError::InitError(m) => CtGenError::InitError(m.clone()),
            CtGenError::ValidationError(m) => CtGenError::ValidationError(m.clone()),
            CtGenError::RuntimeError(m) => CtGenError::RuntimeError(m.clone()),
            CtGenError::DatabaseError(m) => CtGenError::DatabaseError(m.clone()),
        }
    }
}

impl CtGenError {
    /// The kind of this error.
    pub open spec fn kind(&self) -> CtGenErrorKind {
        match self {
            CtGenError::InitError(_) => CtGenErrorKind::Init,
            CtGenError::ValidationError(_) => CtGenErrorKind::Validation,
            CtGenError::RuntimeError(_) => CtGenErrorKind::Runtime,
            CtGenError::DatabaseError(_) => CtGenErrorKind::Database,
        }
    }

    /// The message of this error.
    pub open spec fn message(&self) -> Seq<char> {
        match self {
            CtGenError::InitError(m) => m@,
            CtGenError::ValidationError(m) => m@,
            CtGenError::RuntimeError(m) => m@,
            CtGenError::DatabaseError(m) => m@,
        }
    }

    /// The label that a kind is printed with.
    pub open spec fn label(kind: CtGenErrorKind) -> Seq<char> {
        match kind {
            CtGenErrorKind::Init => "InitError: "@,
            CtGenErrorKind::Validation => "ValidationError: "@,
            CtGenErrorKind::Runtime => "RuntimeError: "@,
            CtGenErrorKind::Database => "DatabaseError: "@,
        }
    }

    /// Whether this is an error of kind `kind` with the message `message`.
    pub open spec fn is(&self, kind: CtGenErrorKind, message: Seq<char>) -> bool {
        self.kind() == kind && self.message() == message
    }

    /// The kind of this error.
    pub fn error_kind(&self) -> (r: CtGenErrorKind)
        ensures
            r == self.kind(),
    {
        match self {
            CtGenError::InitError(_) => CtGenErrorKind::Init,
            CtGenError::ValidationError(_) => CtGenErrorKind::Validation,
            CtGenError::RuntimeError(_) => CtGenErrorKind::Runtime,
            CtGenError::DatabaseError(_) => CtGenErrorKind::Database,
        }
    }

    /// The printed form: the kind's label followed by the message.
    pub fn to_string(&self) -> (r: String)
        ensures
            r@ == Self::label(self.kind()) + self.message(),
    {
        match self {
            CtGenError::InitError(m) => "InitError: ".to_owned().concat(m.as_str()),
            CtGenError::ValidationError(m) => "ValidationError: ".to_owned().concat(m.as_str()),
            CtGenError::RuntimeError(m) => "RuntimeError: ".to_owned().concat(m.as_str()),
            CtGenError::DatabaseError(m) => "DatabaseError: ".to_owned().concat(m.as_str()),
        }
    }

    /// A validation error whose message is `head` followed by `detail`.
    pub fn validation(head: &str, detail: &str) -> (r: CtGenError)
        ensures
            r.is(CtGenErrorKind::Validation, head@ + detail@),
    {
        CtGenError::ValidationError(head.to_owned().concat(detail))
    }

    /// A runtime error whose message is `head` followed by `detail`.
    pub fn runtime(head: &str, detail: &str) -> (r: CtGenError)
        ensures
            r.is(CtGenErrorKind::Runtime, head@ + detail@),
    {
        CtGenError::RuntimeError(head.to_owned().concat(detail))
    }

    /// An initialization error whose message is `head` followed by `detail`.
    pub fn init(head: &str, detail: &str) -> (r: CtGenError)
        ensures
            r.is(CtGenErrorKind::Init, head@ + detail@),
    {
        CtGenError::InitError(head.to_owned().concat(detail))
    }

    /// A database error with the message `detail`.
    pub fn database(detail: &str) -> (r: CtGenError)
        ensures
            r.is(CtGenErrorKind::Database, detail@),
    {
        CtGenError::DatabaseError(detail.to_owned())
    }
}

} // verus!
