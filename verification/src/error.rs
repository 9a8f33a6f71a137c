//! The library's typed failures: exactly two kinds.
//!
//! A connection failure can arise only while constructing a client; a send
//! failure only while issuing a send operation, and it wraps the remote
//! status unchanged, so a caller needing finer-grained handling can inspect
//! the wrapped status.

use vstd::prelude::*;

verus! {

/// Error while talking to the mail service.
#[derive(Debug)]
pub enum Error {
    /// Error while connecting to the kannon host: the host string did not
    /// parse, the TLS trust configuration could not be established, or the
    /// connection attempt itself failed. The underlying cause is kept.
    ConnectionError(tonic::transport::Error),
    /// Error while sending mail: the remote call failed, for whatever
    /// reason. The remote status is kept exactly as it came back.
    SendMailError(tonic::Status),
}

/// Translates the outcome of the remote call into the library's result: a
/// success stays a success, and a failed call becomes a send failure
/// wrapping that exact status. Nothing is retried and nothing else is
/// inspected; this holds whatever status the call produced.
pub fn send_outcome(outcome: Result<(), tonic::Status>) -> (r: Result<(), Error>)
    ensures
        outcome is Ok <==> r is Ok,
        outcome matches Err(s) ==> r == Result::<(), Error>::Err(Error::SendMailError(s)),
{
    match outcome {
        Ok(()) => Ok(()),
        Err(s) => Err(Error::SendMailError(s)),
    }
}

} // verus!
