//! The failure conditions that the framework reports.

use vstd::prelude::*;

verus! {

/// Everything that can go wrong while framing, assembling or transporting a
/// message.
///
/// "No handler registered for an id" is not an error: the routing table
/// answers it with the reserved not-found response instead.
#[derive(Debug)]
pub enum ZerustError {
    /// An underlying transport operation failed; carries a description of the
    /// fault. Built at the edge of the system, where the transport lives.
    IoError(String),
    /// The remote peer ended the stream while a message was still expected.
    /// An expected terminal condition, kept apart from a genuine fault.
    ConnectionClosed,
    /// A full 8-byte header could not be assembled from the bytes supplied.
    InvalidHeader,
    /// A message broke a protocol rule; carries a description.
    ProtocolError(String),
}

} // verus!
