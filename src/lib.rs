//! A client for the WAMP publish/subscribe protocol.
//!
//! The library holds the protocol logic: the message model and its envelope
//! codec, the extraction of event payloads from raw frames, and the session
//! engine that correlates requests with router responses and dispatches
//! events to registered callbacks. Sockets, threads and the JSON text
//! serializer live with the application around it.
use vstd::prelude::*;

pub mod client;
pub mod message;
pub mod options;
pub mod payload;
pub mod session;
pub mod transport;

pub use message::WampType;
pub use payload::Payload;

verus! {

/// Everything that can go wrong in a WAMP session.
#[derive(Debug, Clone, Copy, PartialEq, Eq, Structural)]
pub enum WampError {
    /// The router address could not be parsed.
    InvalidURL,
    /// The transport could not connect, or its handshake failed.
    WebSocketError,
    /// The queue feeding the outbound loop has no consumer any more.
    InternalThreadError,
    /// Received data does not follow the protocol.
    ProtocolError,
    /// A payload could not be decoded into the requested shape.
    DecodeError,
    /// The operation needs an established session.
    NotConnected,
    /// The session has already sent its HELLO.
    AlreadyJoined,
    /// The session ended before the request was answered.
    ConnectionClosed,
    /// Every request id that the session may use has been used.
    RequestIdsExhausted,
}

pub type WampResult<T> = Result<T, WampError>;

} // verus!
