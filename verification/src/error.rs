//! The unified error taxonomy returned by every core operation.

use vstd::prelude::*;

verus! {

/// Every failure a core operation can report.
///
/// - `UnsupportedVersion`: the report carries a protocol version other than
///   the single supported one; a client-input error, never retried.
/// - `InvalidSourceUrl`: no video identifier could be extracted from the
///   reported URL; the original string is carried along.
/// - `InvalidMetadata`: the external catalog returned zero usable items for
///   a resolved identifier.
/// - `MetadataUnavailable`: transport-level failure talking to the external
///   catalog; transient, not retried inside the core.
/// - `StorageError`: the durable store failed on a read or write.
/// - `NotFound`: a query against an empty or too-short log; distinct from
///   success-with-data but not a fault in the caller's control flow.
#[derive(Debug)]
pub enum Error {
    UnsupportedVersion { expected: u32, got: u32 },
    InvalidSourceUrl(String),
    InvalidMetadata,
    MetadataUnavailable,
    StorageError,
    NotFound,
}

impl Error {
    /// A human-readable description of the failure; for a rejected URL the
    /// original string is carried in the message.
    pub fn message(&self) -> (r: String)
        ensures
            self is UnsupportedVersion ==> r@ == "invalid item version"@,
            self matches Error::InvalidSourceUrl(url) ==> r@ == "invalid youtube url: "@ + url@,
            self is InvalidMetadata ==> r@ == "invalid youtube data"@,
            self is MetadataUnavailable ==> r@ == "youtube catalog unavailable"@,
            self is StorageError ==> r@ == "storage error"@,
            self is NotFound ==> r@ == "not found"@,
    {
        match self {
            Error::UnsupportedVersion { .. } => String::from_str("invalid item version"),
            Error::InvalidSourceUrl(url) => {
                let mut message = String::from_str("invalid youtube url: ");
                message.append(url.as_str());
                message
            },
            Error::InvalidMetadata => String::from_str("invalid youtube data"),
            Error::MetadataUnavailable => String::from_str("youtube catalog unavailable"),
            Error::StorageError => String::from_str("storage error"),
            Error::NotFound => String::from_str("not found"),
        }
    }
}

impl Clone for Error {
    fn clone(&self) -> (r: Self)
        ensures
            r == *self,
    {
        match self {
            Error::UnsupportedVersion { expected, got } => Error::UnsupportedVersion {
                expected: *expected,
                got: *got,
            },
            Error::InvalidSourceUrl(url) => Error::InvalidSourceUrl(url.clone()),
            Error::InvalidMetadata => Error::InvalidMetadata,
            Error::MetadataUnavailable => Error::MetadataUnavailable,
            Error::StorageError => Error::StorageError,
            Error::NotFound => Error::NotFound,
        }
    }
}

} // verus!
