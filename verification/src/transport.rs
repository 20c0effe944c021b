//! What the transport hands the client at each readiness point.  The
//! embedding program owns the connection; the state machines here consume
//! these plain events.
use vstd::prelude::*;

verus! {

/// One inbound frame, reduced to what the protocol logic reads: the text of
/// a text frame, the kind of a control frame.  `Other` covers every frame
/// kind the stream does not interpret (binary, close notices, and so on).
#[derive(Debug, PartialEq, Eq)]
pub enum WireFrame {
    Text(String),
    Ping,
    Pong,
    Other,
}

/// One readiness event of the transport: a frame arrived, the peer closed
/// the connection, or the transport failed with an error message.
#[derive(Debug, PartialEq, Eq)]
pub enum TransportEvent {
    Frame(WireFrame),
    Closed,
    Failed(String),
}

} // verus!
