//! The gRPC status that a failed call is answered with.

use vstd::prelude::*;
use crate::error::{CallError, CallErrorView, ErrorCode};

verus! {

/// `tonic::Status`, carried through as it is: nothing inside it is read here.
#[verifier::external_type_specification]
#[verifier::external_body]
pub struct ExStatus(tonic::Status);

/// What `tonic::Status::code` returns for a status, as the number that gRPC
/// gives the code.
pub uninterp spec fn status_code(status: tonic::Status) -> int;

/// What `tonic::Status::message` returns for a status.
pub uninterp spec fn status_message(status: tonic::Status) -> Seq<char>;

/// The number gRPC gives the code `Internal`.
pub const GRPC_INTERNAL: i32 = 13;

/// The number gRPC gives the code `Unavailable`.
pub const GRPC_UNAVAILABLE: i32 = 14;

/// The number gRPC gives the code that stands for an error's class.
pub open spec fn grpc_code(code: ErrorCode) -> int {
    match code {
        ErrorCode::Internal => GRPC_INTERNAL as int,
        ErrorCode::Unavailable => GRPC_UNAVAILABLE as int,
    }
}

/// Calls `tonic::Status::internal`, which makes a status with the code
/// `Internal` and the message it is given. The contract says so, and nothing
/// is proved of it.
#[verifier::external_body]
fn new_internal(message: String) -> (status: tonic::Status)
    ensures
        status_code(status) == GRPC_INTERNAL,
        status_message(status) == message@,
{
    tonic::Status::internal(message)
}

/// Calls `tonic::Status::unavailable`, which makes a status with the code
/// `Unavailable` and the message it is given. The contract says so, and
/// nothing is proved of it.
#[verifier::external_body]
fn new_unavailable(message: String) -> (status: tonic::Status)
    ensures
        status_code(status) == GRPC_UNAVAILABLE,
        status_message(status) == message@,
{
    tonic::Status::unavailable(message)
}

/// Whether a status stands for an error: it has the code of the error's
/// class and the error's message.
pub open spec fn stands_for(status: tonic::Status, error: CallErrorView) -> bool {
    &&& status_code(status) == grpc_code(error.code)
    &&& status_message(status) == error.message
}

impl CallError {
    /// Turns the error into the status that the caller is answered with.
    pub fn into_status(self) -> (status: tonic::Status)
        ensures
            stands_for(status, self@),
    {
        match self.code {
            ErrorCode::Internal => new_internal(self.message),
            ErrorCode::Unavailable => new_unavailable(self.message),
        }
    }
}

} // verus!
