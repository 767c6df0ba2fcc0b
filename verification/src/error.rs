//! What can go wrong, and the words in which it is reported.

use vstd::prelude::*;

verus! {

/// The kinds of failure. Every one of them ends the request.
#[derive(Debug, Clone, Copy, PartialEq, Eq, Structural)]
pub enum ErrorKind {
    /// The package or version specifier is malformed.
    InvalidSpec,
    /// The registry does not know the package.
    PackageNotFound,
    /// The registry answered with a failure, or with a document that cannot be used.
    RegistryError,
    /// No published version satisfies the constraint.
    NoMatchingVersion,
    /// A repository method was asked for, but the registry names no repository.
    NoRepositoryDeclared,
    /// The declared location belongs to no known hosting service.
    UnknownVcs,
    /// The hosting service answered with a failure.
    HostingApiError,
    /// The hosting service names a version-control system that is not supported.
    UnsupportedScm,
    /// The hosting service's answer lacks what is needed.
    MalformedHostingResponse,
    /// A version constraint was combined with a repository method.
    VersionNotSupportedForMethod,
    /// Extra arguments were combined with the archive method.
    UnexpectedExtraArguments,
    /// An archive entry lies outside the expected directory.
    ArchiveLayoutMismatch,
    /// The version-control program did not run to a successful end.
    ExternalToolFailed,
}

/// A failure: its kind, and a message for the user.
#[derive(Debug, Clone, PartialEq, Eq)]
pub struct CloneError {
    pub kind: ErrorKind,
    pub message: String,
}

/// A failure as a mathematical value.
pub ghost struct ErrorView {
    pub kind: ErrorKind,
    pub message: Seq<char>,
}

impl View for CloneError {
    type V = ErrorView;

    open spec fn view(&self) -> ErrorView {
        ErrorView { kind: self.kind, message: self.message@ }
    }
}

/// The failure of kind `kind` that says `message`.
pub open spec fn failure(kind: ErrorKind, message: Seq<char>) -> ErrorView {
    ErrorView { kind, message }
}

/// The failure of kind `kind` that says `before`, `subject` and `after`, in this order.
pub open spec fn failure_about(
    kind: ErrorKind,
    before: Seq<char>,
    subject: Seq<char>,
    after: Seq<char>,
) -> ErrorView {
    ErrorView { kind, message: before + subject + after }
}

impl CloneError {
    /// The failure of kind `kind` that says `message`.
    pub fn new(kind: ErrorKind, message: &str) -> (r: CloneError)
        ensures
            r@ == failure(kind, message@),
    {
        CloneError { kind, message: message.to_owned() }
    }

    /// The failure of kind `kind` whose message names `subject` between `before` and `after`.
    pub fn about(kind: ErrorKind, before: &str, subject: &str, after: &str) -> (r: CloneError)
        ensures
            r@ == failure_about(kind, before@, subject@, after@),
    {
        let mut message = before.to_owned();
        message.append(subject);
        message.append(after);
        CloneError { kind, message }
    }

    /// The kind of this failure.
    pub fn kind(&self) -> (r: ErrorKind)
        ensures
            r == self@.kind,
    {
        self.kind
    }

    /// The message of this failure.
    pub fn message(&self) -> (r: String)
        ensures
            r@ == self@.message,
    {
        self.message.clone()
    }
}

/// The outcome of a step that gives a text or fails, as a mathematical value.
pub open spec fn text_outcome(r: Result<String, CloneError>) -> Result<Seq<char>, ErrorView> {
    match r {
        Ok(s) => Ok(s@),
        Err(e) => Err(e@),
    }
}

} // verus!
