//! The one error value of the library: a kind and a message.

use vstd::prelude::*;
use vstd::string::*;
use crate::text::prefixed;

verus! {

/// What went wrong, in the broadest terms.
#[derive(Debug, Clone, Copy, PartialEq, Eq, Structural)]
pub enum ErrorKind {
    /// The operation named a pattern that is not registered.
    NotFound,
    /// The step needs an endpoint or a client that the pattern does not have yet.
    NotReady,
    /// A channel could not be established, or a call did not complete.
    Transport,
    /// The backend answered and reported a failure.
    Logical,
    /// The operating system could not launch or end the process.
    Process,
}

/// A failure, with a message fit for a person to read.
#[derive(Debug, PartialEq, Eq)]
pub struct LifecycleError {
    kind: ErrorKind,
    message: String,
}

/// The mathematical value of a `LifecycleError`.
pub ghost struct ErrorView {
    pub kind: ErrorKind,
    pub message: Seq<char>,
}

impl View for LifecycleError {
    type V = ErrorView;

    closed spec fn view(&self) -> ErrorView {
        ErrorView { kind: self.kind, message: self.message@ }
    }
}

impl ErrorView {
    /// The same failure, told with `prefix` in front of its message.
    pub open spec fn context(self, prefix: Seq<char>) -> ErrorView {
        ErrorView { kind: self.kind, message: prefix + self.message }
    }
}

/// The failure of an operation on a name that is not registered.
pub open spec fn not_found_error(name: Seq<char>) -> ErrorView {
    ErrorView { kind: ErrorKind::NotFound, message: "Pattern not found: "@ + name }
}

/// The failure of a connect on a pattern without an endpoint.
pub open spec fn no_endpoint_error() -> ErrorView {
    ErrorView { kind: ErrorKind::NotReady, message: "No gRPC endpoint available"@ }
}

/// The failure of a remote call on a pattern without a client.
pub open spec fn no_client_error() -> ErrorView {
    ErrorView { kind: ErrorKind::NotReady, message: "No gRPC client available"@ }
}

/// A result with its error taken by its view.
pub open spec fn lift<T>(result: Result<T, LifecycleError>) -> Result<T, ErrorView> {
    match result {
        Ok(value) => Ok(value),
        Err(error) => Err(error@),
    }
}

impl Clone for LifecycleError {
    fn clone(&self) -> (copy: Self)
        ensures
            copy@ == self@,
    {
        LifecycleError { kind: self.kind, message: self.message.clone() }
    }
}

impl LifecycleError {
    /// A failure of the given kind with the given message.
    pub fn new(kind: ErrorKind, message: String) -> (error: LifecycleError)
        ensures
            error@ == (ErrorView { kind, message: message@ }),
    {
        LifecycleError { kind, message }
    }

    /// The kind of the failure.
    pub fn kind(&self) -> (kind: ErrorKind)
        ensures
            kind == self@.kind,
    {
        self.kind
    }

    /// The message of the failure.
    pub fn message(&self) -> (message: &str)
        ensures
            message@ == self@.message,
    {
        self.message.as_str()
    }

    /// The failure of an operation on the unregistered `name`.
    pub fn not_found(name: &str) -> (error: LifecycleError)
        ensures
            error@ == not_found_error(name@),
    {
        LifecycleError { kind: ErrorKind::NotFound, message: prefixed("Pattern not found: ", name) }
    }

    /// The failure of a connect on a pattern without an endpoint.
    pub fn no_endpoint() -> (error: LifecycleError)
        ensures
            error@ == no_endpoint_error(),
    {
        LifecycleError {
            kind: ErrorKind::NotReady,
            message: String::from_str("No gRPC endpoint available"),
        }
    }

    /// The failure of a remote call on a pattern without a client.
    pub fn no_client() -> (error: LifecycleError)
        ensures
            error@ == no_client_error(),
    {
        LifecycleError {
            kind: ErrorKind::NotReady,
            message: String::from_str("No gRPC client available"),
        }
    }

    /// The same failure, told with `prefix` in front of its message.
    pub fn context(self, prefix: &str) -> (error: LifecycleError)
        ensures
            error@ == self@.context(prefix@),
    {
        let message = prefixed(prefix, self.message.as_str());
        LifecycleError { kind: self.kind, message }
    }
}

} // verus!
