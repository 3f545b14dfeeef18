//! The error taxonomy of the channel boundary.
//!
//! Channel-level failures ([`ReadError::Io`], [`ReadError::Disconnect`])
//! terminate the read loop; per-message failures ([`ReadError::NotObject`],
//! [`RemoteError`]) are scoped to one line or one call and leave the reader
//! usable for the next line.

use vstd::prelude::*;

use crate::json::JsonValue;

verus! {

#[verifier::external_type_specification]
#[verifier::external_body]
pub struct ExIoError(std::io::Error);

/// Why one read attempt on the channel failed.
#[derive(Debug)]
pub enum ReadError {
    /// An I/O failure reported by the underlying stream, passed on verbatim.
    Io(std::io::Error),
    /// A read yielded zero bytes: the peer closed the channel.
    Disconnect,
    /// The line was syntactically valid JSON whose top level is not an
    /// object; carries the offending line verbatim.
    NotObject(String),
}

/// A classified failure of a remote call.
#[derive(Debug, PartialEq, Eq)]
pub enum RemoteError {
    /// A payload did not have the expected shape; carries the offending
    /// value whole, for diagnostics.
    InvalidResponse(JsonValue),
    /// A failure that the remote peer reported itself.
    Remote(String),
}

} // verus!
