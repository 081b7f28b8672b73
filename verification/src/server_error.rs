//! Splits the error taxonomy for the network-facing collaborator: which
//! failures are the client's fault and which are the server's, each with
//! the stable label the wire format carries. The collaborator wraps the
//! label and message into its reply.

use vstd::prelude::*;

use crate::error::Error;

verus! {

/// A failure caused by the client's input.
#[derive(Debug)]
pub struct UserError {
    pub error: Error,
}

impl UserError {
    /// The wire label for a client-input failure; `None` when the wrapped
    /// error is not the client's fault.
    pub fn as_reply(&self) -> (r: Option<&'static str>)
        ensures
            self.error is UnsupportedVersion ==> (r matches Some(l) && l@ == "invalid_version"@),
            self.error is InvalidSourceUrl ==> (r matches Some(l) && l@ == "invalid_youtube_url"@),
            self.error is InvalidMetadata ==> (r matches Some(l) && l@ == "invalid_youtube_data"@),
            self.error is MetadataUnavailable || self.error is StorageError || self.error
                is NotFound ==> r is None,
    {
        match &self.error {
            Error::UnsupportedVersion { .. } => Some("invalid_version"),
            Error::InvalidSourceUrl(_) => Some("invalid_youtube_url"),
            Error::InvalidMetadata => Some("invalid_youtube_data"),
            Error::MetadataUnavailable => None,
            Error::StorageError => None,
            Error::NotFound => None,
        }
    }
}

/// A failure on the service's side.
#[derive(Debug)]
pub struct ServerError {
    pub error: Error,
}

impl ServerError {
    /// The wire label for a server-side failure; `None` when the wrapped
    /// error is the client's fault or plain absence of data.
    pub fn as_reply(&self) -> (r: Option<&'static str>)
        ensures
            self.error is StorageError ==> (r matches Some(l) && l@ == "storage"@),
            self.error is MetadataUnavailable ==> (r matches Some(l) && l@
                == "metadata_unavailable"@),
            self.error is UnsupportedVersion || self.error is InvalidSourceUrl || self.error
                is InvalidMetadata || self.error is NotFound ==> r is None,
    {
        match &self.error {
            Error::StorageError => Some("storage"),
            Error::MetadataUnavailable => Some("metadata_unavailable"),
            Error::UnsupportedVersion { .. } => None,
            Error::InvalidSourceUrl(_) => None,
            Error::InvalidMetadata => None,
            Error::NotFound => None,
        }
    }
}

} // verus!
