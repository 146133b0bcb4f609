//! The unified error taxonomy: credential formatting, endpoint parsing,
//! transport establishment, and remote status failures.

use vstd::prelude::*;

verus! {

/// Status codes a remote call can fail with, mirroring the gRPC code set.
///
/// `Success` is included for completeness; a status error surfaced through
/// [`Error::Status`] normally carries one of the non-success codes.
#[derive(Clone, Copy, PartialEq, Eq, Structural, Debug)]
pub enum StatusCode {
    Success,
    Cancelled,
    Unknown,
    InvalidArgument,
    DeadlineExceeded,
    NotFound,
    AlreadyExists,
    PermissionDenied,
    ResourceExhausted,
    FailedPrecondition,
    Aborted,
    OutOfRange,
    Unimplemented,
    Internal,
    Unavailable,
    DataLoss,
    Unauthenticated,
}

/// A non-success status reported by the remote engine: a code and a message.
#[derive(Clone, Debug)]
pub struct RpcStatus {
    pub code: StatusCode,
    pub message: String,
}

/// The closed set of failure categories of the client.
///
/// Callers branch on the variant to tell a configuration problem
/// (`InvalidPresharedKey`, `InvalidEndpoint`) from a connectivity problem
/// (`Transport`) or a problem the remote engine reported (`Status`).
#[derive(Clone, Debug)]
pub enum Error {
    /// The preshared key cannot be encoded as a transport metadata value.
    InvalidPresharedKey,
    /// The supplied server URL is not a valid endpoint reference.
    InvalidEndpoint,
    /// The connection to the endpoint could not be established.
    Transport(String),
    /// The remote engine returned a non-success status.
    Status(RpcStatus),
}

impl Error {
    /// The status code of a remote failure, absent for local failures.
    pub fn status_code(&self) -> (r: Option<StatusCode>)
        ensures
            match self {
                Error::Status(s) => r == Some::<StatusCode>(s.code),
                _ => r is None,
            },
    {
        match self {
            Error::Status(s) => Some(s.code),
            _ => None,
        }
    }
}

} // verus!
