//! The errors that the framework hands back to its callers.

use vstd::prelude::*;
use vstd::string::StringExecFns;

verus! {

/// What went wrong, so that a caller can tell a wrong configuration from an
/// unreachable server or a refused login.
#[derive(Debug, Clone, Copy, PartialEq, Eq, Structural)]
pub enum ErrorKind {
    /// A malformed base URI or an invalid composition of targets.
    Configuration,
    /// A relative target with nothing left after its leading separator.
    InvalidTarget,
    /// The transport could not complete the round trip.
    Transport,
    /// A `Link` header that does not follow its grammar.
    Parse,
    /// The login went through but the response carried no token.
    Auth,
    /// A response body that is not JSON, or not UTF-8.
    Decode,
}

/// An error of the framework: its kind and a text for the reader.
#[derive(Debug, PartialEq, Eq)]
pub struct ClientError {
    kind: ErrorKind,
    message: String,
}

/// A `ClientError` as contracts see it.
pub struct ClientErrorView {
    pub kind: ErrorKind,
    pub message: Seq<char>,
}

impl View for ClientError {
    type V = ClientErrorView;

    closed spec fn view(&self) -> ClientErrorView {
        ClientErrorView { kind: self.kind, message: self.message@ }
    }
}

impl ClientError {
    /// An error of the given kind with the given text.
    pub fn new(kind: ErrorKind, message: &str) -> (e: ClientError)
        ensures
            e@ == (ClientErrorView { kind, message: message@ }),
    {
        ClientError { kind, message: String::from_str(message) }
    }

    /// An error of the given kind that takes over an owned text.
    pub fn with_text(kind: ErrorKind, message: String) -> (e: ClientError)
        ensures
            e@ == (ClientErrorView { kind, message: message@ }),
    {
        ClientError { kind, message }
    }

    /// The kind of this error.
    pub fn kind(&self) -> (k: ErrorKind)
        ensures
            k == self@.kind,
    {
        self.kind
    }

    /// The text of this error.
    pub fn description(&self) -> (text: &str)
        ensures
            text@ == self@.message,
    {
        self.message.as_str()
    }
}

} // verus!
