//! The library's error type.

use vstd::prelude::*;

verus! {

/// Everything that can go wrong in a client operation.
#[derive(Debug, Clone, Copy, PartialEq, Eq, Structural)]
pub enum Error {
    /// Guest login failed or the service rejected the credentials.
    Auth,
    /// An operation that needs a bearer token was attempted without one.
    MissingCredential,
    /// The remote side answered with a failure status, or transport failed.
    Http,
    /// A response body or a declared digest did not match the expected shape.
    Decode,
    /// The download destination exists but is a directory.
    PathConflict,
    /// The downloaded bytes hash to something other than the declared digest.
    Integrity,
    /// A local filesystem operation (create, lock, rename) failed.
    Io,
}

impl Error {
    /// A short human-readable description, for the application to print.
    pub fn message(&self) -> (r: &'static str)
        ensures
            r@.len() > 0,
            self is Auth ==> r@ == "authentication failed"@,
            self is MissingCredential ==> r@ == "missing token"@,
            self is Http ==> r@ == "http error"@,
            self is Decode ==> r@ == "failed to decode response"@,
            self is PathConflict ==> r@ == "output path is a folder"@,
            self is Integrity ==> r@ == "md5 hash mismatch"@,
            self is Io ==> r@ == "io error"@,
    {
        proof {
            reveal_strlit("authentication failed");
            reveal_strlit("missing token");
            reveal_strlit("http error");
            reveal_strlit("failed to decode response");
            reveal_strlit("output path is a folder");
            reveal_strlit("md5 hash mismatch");
            reveal_strlit("io error");
        }
        match self {
            Error::Auth => "authentication failed",
            Error::MissingCredential => "missing token",
            Error::Http => "http error",
            Error::Decode => "failed to decode response",
            Error::PathConflict => "output path is a folder",
            Error::Integrity => "md5 hash mismatch",
            Error::Io => "io error",
        }
    }
}

} // verus!
