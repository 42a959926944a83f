//! A verified receiver for a chat-platform webhook.
//!
//! The library holds the protocol logic of the receiver: the
//! subscription-confirmation handshake (echoing a challenge when the caller
//! presents the shared secret), the structural validation and acknowledgment
//! of inbound event batches, and the assembly of a request body from streamed
//! chunks. Every function here carries a contract that pins its result; the
//! HTTP server, routing and JSON decoding live outside the library and hand
//! it plain values.

pub mod body;
pub mod dispatch;
pub mod laws;
pub mod model;
pub mod response;
pub mod secret;
pub mod text;
pub mod verify;
