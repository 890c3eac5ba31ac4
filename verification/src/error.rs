//! The structured errors that a call or the server's setup can end with.

use vstd::prelude::*;
use vstd::string::StringExecFns;

verus! {

/// The class of a failed call.
#[derive(Clone, Copy, Debug, PartialEq, Eq, Structural)]
pub enum ErrorCode {
    /// The bridge could not carry the call out.
    Internal,
    /// The bridge is shutting down; the caller may try again elsewhere.
    Unavailable,
}

/// A failed call: its class and a message for a human reader.
#[derive(Clone, Debug)]
pub struct CallError {
    pub code: ErrorCode,
    pub message: String,
}

/// The mathematical value of a `CallError`.
pub struct CallErrorView {
    pub code: ErrorCode,
    pub message: Seq<char>,
}

impl View for CallError {
    type V = CallErrorView;

    open spec fn view(&self) -> CallErrorView {
        CallErrorView { code: self.code, message: self.message@ }
    }
}

/// The message of a failure: what failed, a colon and a space, and the cause.
pub open spec fn failure_text(what: Seq<char>, cause: Seq<char>) -> Seq<char> {
    what + ": "@ + cause
}

/// The internal error with the given message.
pub open spec fn internal_error(message: Seq<char>) -> CallErrorView {
    CallErrorView { code: ErrorCode::Internal, message }
}

/// The error every call meets once shutdown has begun.
pub open spec fn shutting_down_error() -> CallErrorView {
    CallErrorView { code: ErrorCode::Unavailable, message: "server shutting down"@ }
}

/// Builds the message of a failure from what failed and its cause.
pub fn failure_message(what: &str, cause: &str) -> (message: String)
    ensures
        message@ == failure_text(what@, cause@),
{
    let mut message = String::from_str(what);
    message.append(": ");
    message.append(cause);
    message
}

impl CallError {
    /// An internal error with the given message.
    pub fn internal(message: String) -> (error: CallError)
        ensures
            error@ == internal_error(message@),
    {
        CallError { code: ErrorCode::Internal, message }
    }

    /// An "unavailable" error with the given message.
    pub fn unavailable(message: String) -> (error: CallError)
        ensures
            error@ == (CallErrorView { code: ErrorCode::Unavailable, message: message@ }),
    {
        CallError { code: ErrorCode::Unavailable, message }
    }

    /// The error that a call ends with when the bridge is shutting down.
    pub fn shutting_down() -> (error: CallError)
        ensures
            error@ == shutting_down_error(),
    {
        CallError::unavailable(String::from_str("server shutting down"))
    }

    /// The internal error for `what` having failed because of `cause`.
    pub fn failed(what: &str, cause: &str) -> (error: CallError)
        ensures
            error@ == internal_error(failure_text(what@, cause@)),
    {
        CallError::internal(failure_message(what, cause))
    }
}

/// What the server was doing when it failed.
#[derive(Clone, Copy, Debug, PartialEq, Eq, Structural)]
pub enum ServerFailure {
    /// Creating the directory that is to hold the socket.
    CreateParent,
    /// Removing a file left at the socket's path by an earlier run.
    RemoveStale,
    /// Binding the listener to the socket's path.
    Bind,
    /// Serving calls.
    Serve,
}

/// A failure of the server itself, at startup or while serving: what it was
/// doing, said for a human reader, and the cause.
#[derive(Clone, Debug)]
pub struct ServerError {
    pub failure: ServerFailure,
    pub context: String,
    pub cause: String,
}

/// The mathematical value of a `ServerError`.
pub struct ServerErrorView {
    pub failure: ServerFailure,
    pub context: Seq<char>,
    pub cause: Seq<char>,
}

impl View for ServerError {
    type V = ServerErrorView;

    open spec fn view(&self) -> ServerErrorView {
        ServerErrorView { failure: self.failure, context: self.context@, cause: self.cause@ }
    }
}

/// What is said of a failure of the server whose socket is at `path`.
pub open spec fn failure_context(failure: ServerFailure, path: Seq<char>) -> Seq<char> {
    match failure {
        ServerFailure::CreateParent => "failed to create parent directory for "@ + path,
        ServerFailure::RemoveStale => "failed to remove existing socket at "@ + path,
        ServerFailure::Bind => "failed to bind unix socket at "@ + path,
        ServerFailure::Serve => "server error"@,
    }
}

/// The failure of the server whose socket is at `path`, with its cause.
pub open spec fn server_error(failure: ServerFailure, path: Seq<char>, cause: Seq<char>) -> ServerErrorView {
    ServerErrorView { failure, context: failure_context(failure, path), cause }
}

impl ServerError {
    /// The error for `failure` of the server whose socket is at `path`.
    pub fn new(failure: ServerFailure, path: &str, cause: String) -> (error: ServerError)
        ensures
            error@ == server_error(failure, path@, cause@),
    {
        let context = match failure {
            ServerFailure::CreateParent => String::from_str(
                "failed to create parent directory for ",
            ).concat(path),
            ServerFailure::RemoveStale => String::from_str(
                "failed to remove existing socket at ",
            ).concat(path),
            ServerFailure::Bind => String::from_str("failed to bind unix socket at ").concat(path),
            ServerFailure::Serve => String::from_str("server error"),
        };
        ServerError { failure, context, cause }
    }

    /// The error as one line: the context, a colon and a space, and the
    /// cause.
    pub fn to_string(&self) -> (text: String)
        ensures
            text@ == failure_text(self.context@, self.cause@),
    {
        failure_message(self.context.as_str(), self.cause.as_str())
    }
}

} // verus!
