//! The error type that every operation of the daemon returns.

use vstd::prelude::*;

verus! {

/// What went wrong, by class.
#[derive(Debug, Clone, Copy, PartialEq, Eq, Structural)]
pub enum ErrorKind {
    /// A field supplied by the user is missing or invalid.
    Validation,
    /// A lookup by name found nothing.
    NotFound,
    /// A name or a MAC address is already in use.
    Conflict,
    /// The backend named by an object is not configured.
    UnknownBackend,
    /// A backend script ended with a non-zero status.
    BackendScriptFailed,
    /// A backend script wrote output that is no list of key/value lines.
    BackendProtocol,
    /// A command of the operating system's networking tool failed.
    NetworkDevice,
    /// A peer answered with an error, or could not be reached.
    Remote,
    /// The inventory store failed.
    Store,
    /// The command is none of the dispatch surface.
    UnknownCommand,
    /// A migration names the local node as its destination.
    SameNode,
    /// The host answered a request with a response of another kind.
    Unexpected,
}

/// An error: its class and a message for the user.
#[derive(Debug)]
pub struct Error {
    pub kind: ErrorKind,
    pub message: String,
}

/// What an [`Error`] is in contracts.
pub struct ErrorView {
    pub kind: ErrorKind,
    pub message: Seq<char>,
}

impl View for Error {
    type V = ErrorView;

    open spec fn view(&self) -> ErrorView {
        ErrorView { kind: self.kind, message: self.message@ }
    }
}

impl Error {
    /// An error of class `kind` with the given message.
    pub fn new(kind: ErrorKind, message: &str) -> (e: Error)
        ensures
            e.kind == kind,
            e.message@ == message@,
    {
        Error { kind, message: String::from_str(message) }
    }

    /// An error of class `kind` whose message is `prefix` followed by `detail`.
    pub fn with_detail(kind: ErrorKind, prefix: &str, detail: &str) -> (e: Error)
        ensures
            e.kind == kind,
            e.message@ == prefix@ + detail@,
    {
        let mut message = String::from_str(prefix);
        message.append(detail);
        Error { kind, message }
    }

    /// The message.
    pub fn description(&self) -> (s: &str)
        ensures
            s@ == self.message@,
    {
        self.message.as_str()
    }

    /// The message, as an owned string.
    pub fn to_string(&self) -> (s: String)
        ensures
            s@ == self.message@,
    {
        self.message.clone()
    }

    /// The same error once more.
    pub fn copy(&self) -> (e: Error)
        ensures
            e@ == self@,
    {
        Error { kind: self.kind, message: self.message.clone() }
    }
}

} // verus!
