//! The one error type of the engine.

use vstd::prelude::*;

verus! {

/// Why an operation of the engine, or a piece of outside work done for it,
/// did not succeed.
#[derive(Debug, Clone, Copy, PartialEq, Eq, Structural)]
pub enum Error {
    /// An address could not be built, or the home server answered with a
    /// document that does not have the expected shape.
    BackendError,
    /// The request did not reach the home server, or no answer came back.
    NetworkError,
    /// The home server refused the credentials or the access token.
    AuthError,
    /// A local file could not be read or written.
    IoError,
    /// A file could not be stored in, or fetched into, the local cache.
    CacheError,
    /// The credential store could not be reached or holds no usable entry.
    SecretServiceError,
}

/// What it means that the home server answered a request with the status
/// `status` instead of serving it: the credentials were refused where it
/// says so (401, 403), and for the rest the request failed on the way.
pub open spec fn status_error(status: int) -> Error {
    if status == 401 || status == 403 {
        Error::AuthError
    } else {
        Error::NetworkError
    }
}

/// The error for a request that the home server answered with the status
/// `status` instead of serving it.
pub fn error_for_status(status: u16) -> (e: Error)
    ensures
        e == status_error(status as int),
{
    if status == 401 || status == 403 {
        Error::AuthError
    } else {
        Error::NetworkError
    }
}

} // verus!
