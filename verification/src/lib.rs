//! Client core for a real-time event feed: a message-envelope decoder, a
//! keepalive timer, a connection handshake, topic subscription planning, and
//! the event-stream multiplexer state machine.
//!
//! The verified logic works over plain values.  The transport (a websocket)
//! and the registration call (an HTTP request) are driven by the embedding
//! program, which feeds transport events into the state machines defined
//! here and performs the actions they request.
pub mod envelope;
pub mod events;
pub mod handshake;
pub mod json;
pub mod mux;
pub mod subscribe;
pub mod timer;
pub mod transport;
