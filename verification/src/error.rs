//! The error taxonomy of an upload call.

use vstd::prelude::*;

verus! {

/// Everything that can go wrong during one upload call.
///
/// Every failure mode is surfaced as a distinguishable value; nothing is
/// retried or swallowed.
#[derive(Debug)]
pub enum UploadError {
    /// The source file could not be read; carries the reader's message.
    FileReadError(String),
    /// The network round trip failed; carries the transport's message.
    TransportError(String),
    /// The service answered with a non-success status; carries the code.
    HttpStatusError(u16),
    /// The response body did not match the expected schema; carries a message.
    DecodeError(String),
}

impl UploadError {
    /// A short text describing the error, usable in place of `Display`.
    pub fn message(&self) -> (r: String)
        ensures
            self matches UploadError::FileReadError(m) ==> r@ == m@,
            self matches UploadError::TransportError(m) ==> r@ == m@,
            self matches UploadError::DecodeError(m) ==> r@ == m@,
    {
        match self {
            UploadError::FileReadError(m) => m.clone(),
            UploadError::TransportError(m) => m.clone(),
            UploadError::HttpStatusError(_) => "unexpected http status".to_owned(),
            UploadError::DecodeError(m) => m.clone(),
        }
    }
}

} // verus!
