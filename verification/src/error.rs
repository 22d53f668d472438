//! The failures that an operation on the local mirror can end in.

use vstd::prelude::*;

verus! {

/// What went wrong, as far as a caller needs to tell failures apart.
#[derive(Clone, Copy, Debug, PartialEq, Eq, Structural)]
pub enum ErrorKind {
    /// No usable local repository was found and cloning the remote failed.
    CloneFailed,
    /// Bringing the tracked branch up to date with the remote failed.
    FailedToUpdateDefinitions,
    /// Moving the local repository to the requested version failed.
    VersionSetFailure,
}

/// A failure: its kind and a message that names the step and the cause.
#[derive(Clone, Debug, PartialEq, Eq)]
pub struct DownloadError {
    kind: ErrorKind,
    message: String,
}

/// The mathematical value of a [`DownloadError`].
pub struct ErrorView {
    pub kind: ErrorKind,
    pub message: Seq<char>,
}

impl View for DownloadError {
    type V = ErrorView;

    closed spec fn view(&self) -> ErrorView {
        ErrorView { kind: self.kind, message: self.message@ }
    }
}

impl DownloadError {
    /// An error of the given kind with the given message.
    pub fn new(kind: ErrorKind, message: &str) -> (error: DownloadError)
        ensures
            error@ == (ErrorView { kind, message: message@ }),
    {
        DownloadError { kind, message: message.to_owned() }
    }

    /// An error of the given kind whose message is `step` followed by `cause`.
    pub fn wrap(kind: ErrorKind, step: &str, cause: &str) -> (error: DownloadError)
        ensures
            error@ == (ErrorView { kind, message: step@ + cause@ }),
    {
        DownloadError { kind, message: step.to_owned().concat(cause) }
    }

    /// The kind of this error.
    pub fn kind(&self) -> (kind: ErrorKind)
        ensures
            kind == self@.kind,
    {
        self.kind
    }

    /// The message of this error.
    pub fn message(&self) -> (message: &str)
        ensures
            message@ == self@.message,
    {
        self.message.as_str()
    }

    /// The message of this error, as an owned string.
    pub fn to_string(&self) -> (text: String)
        ensures
            text@ == self@.message,
    {
        self.message.clone()
    }
}

} // verus!
