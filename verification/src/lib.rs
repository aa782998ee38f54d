//! A minimal message-oriented TCP application framework.
//!
//! Byte payloads travel behind a fixed 8-byte binary header holding a 32-bit
//! message id and a 32-bit payload length, both little-endian. Decoded
//! messages are dispatched to handlers registered by message id; a pending
//! buffer turns an arbitrarily chunked byte stream into complete messages.
//!
//! * `error` - the failure conditions the framework reports
//! * `request` - the inbound message envelope
//! * `response` - the outbound message envelope
//! * `router` - the routing table from message id to handler
//! * `datapack` - the wire codec: header packing and unpacking
//! * `connection` - the pending buffer that assembles messages from stream chunks
//! * `server` - the server state and the per-connection dispatch step

pub mod connection;
pub mod datapack;
pub mod error;
pub mod request;
pub mod response;
pub mod router;
pub mod server;

pub use error::ZerustError;
pub use request::Request;
pub use response::Response;
pub use router::{DefaultRouter, EchoHandler, FixedReplyHandler, Handler, Router};
pub use server::{dispatch_pending, Server};
