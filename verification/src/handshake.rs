//! The connection handshake: after opening the transport, the client waits
//! for a `session_welcome` control message and extracts the session.  Any
//! application message of another type before the welcome fails the
//! handshake at once; frames that are not text (pings and the like) are
//! passed over.
use vstd::prelude::*;
use vstd::string::StringExecFns;

use crate::envelope::Message;
use crate::envelope::parse_message;
use crate::envelope::spec_parse_message;
use crate::json::Json;
use crate::json::get_field;
use crate::json::get_i64_field;
use crate::json::get_opt_str_field;
use crate::json::get_str_field;
use crate::json::json_parse;
use crate::json::parse_json;
use crate::json::spec_field;
use crate::json::spec_i64_field;
use crate::json::spec_opt_str_field;
use crate::json::spec_str_field;
use crate::transport::TransportEvent;
use crate::transport::WireFrame;

verus! {

/// The session carried by a welcome message.
#[derive(Debug, Clone, PartialEq, Eq)]
pub struct SessionWelcomeSession {
    pub id: String,
    pub connected_at: String,
    pub status: String,
    pub reconnect_url: Option<String>,
    pub keepalive_timeout_seconds: i64,
}

/// The payload of a `session_welcome` message.
#[derive(Debug, Clone, PartialEq, Eq)]
pub struct SessionWelcome {
    pub session: SessionWelcomeSession,
}

/// Why the handshake failed.
#[derive(Debug, PartialEq, Eq)]
pub enum HandshakeError {
    /// A text frame that is not well-formed JSON.
    InvalidJson,
    /// A document without the message envelope's required fields.
    InvalidEnvelope,
    /// An application message of a type other than `session_welcome`
    /// arrived before the welcome.
    NotWelcome,
    /// A welcome message whose payload lacks the session fields.
    InvalidWelcome,
    /// The transport closed before a welcome arrived.
    ConnectionDropped,
    /// A transport error, with its message.
    Transport(String),
}

/// What one transport event does to the handshake.
#[derive(Debug, PartialEq, Eq)]
pub enum HandshakeStep {
    /// Nothing decided yet: keep waiting for the next frame.
    Pending,
    /// The welcome arrived; the session is established.
    Established(SessionWelcome),
    /// The handshake failed; no further frames are consumed.
    Failed(HandshakeError),
}

/// The session a welcome payload decodes to: a `session` object whose id,
/// connection time and status are required strings, whose reconnect URL is
/// optional, and whose keepalive timeout is a required integer.
pub open spec fn spec_parse_session_welcome(payload: Json) -> Option<SessionWelcome> {
    match spec_field(payload, "session"@) {
        Some(sess) => match (
            spec_str_field(sess, "id"@),
            spec_str_field(sess, "connected_at"@),
            spec_str_field(sess, "status"@),
            spec_opt_str_field(sess, "reconnect_url"@),
            spec_i64_field(sess, "keepalive_timeout_seconds"@),
        ) {
            (Some(id), Some(connected_at), Some(status), Some(reconnect_url), Some(
                keepalive_timeout_seconds,
            )) => Some(
                SessionWelcome {
                    session: SessionWelcomeSession {
                        id,
                        connected_at,
                        status,
                        reconnect_url,
                        keepalive_timeout_seconds,
                    },
                },
            ),
            _ => None,
        },
        None => None,
    }
}

/// What one transport event does to the handshake: text frames must decode
/// to a `session_welcome` message; other frames are passed over; closure and
/// transport errors fail the handshake.
pub open spec fn spec_handshake_step(ev: TransportEvent) -> HandshakeStep {
    match ev {
        TransportEvent::Frame(WireFrame::Text(s)) => match json_parse(s@) {
            None => HandshakeStep::Failed(HandshakeError::InvalidJson),
            Some(j) => match spec_parse_message(j) {
                None => HandshakeStep::Failed(HandshakeError::InvalidEnvelope),
                Some(msg) => if msg.metadata.message_type@ != "session_welcome"@ {
                    HandshakeStep::Failed(HandshakeError::NotWelcome)
                } else {
                    match spec_parse_session_welcome(msg.payload) {
                        Some(w) => HandshakeStep::Established(w),
                        None => HandshakeStep::Failed(HandshakeError::InvalidWelcome),
                    }
                },
            },
        },
        TransportEvent::Frame(_) => HandshakeStep::Pending,
        TransportEvent::Closed => HandshakeStep::Failed(HandshakeError::ConnectionDropped),
        TransportEvent::Failed(e) => HandshakeStep::Failed(HandshakeError::Transport(e)),
    }
}

/// Decode a welcome payload.
pub fn parse_session_welcome(payload: &Json) -> (r: Option<SessionWelcome>)
    ensures
        r == spec_parse_session_welcome(*payload),
{
    let sess = match get_field(payload, &String::from_str("session")) {
        Some(s) => s,
        None => return None,
    };
    let id = match get_str_field(sess, &String::from_str("id")) {
        Some(s) => s,
        None => return None,
    };
    let connected_at = match get_str_field(sess, &String::from_str("connected_at")) {
        Some(s) => s,
        None => return None,
    };
    let status = match get_str_field(sess, &String::from_str("status")) {
        Some(s) => s,
        None => return None,
    };
    let reconnect_url = match get_opt_str_field(sess, &String::from_str("reconnect_url")) {
        Some(o) => o,
        None => return None,
    };
    let keepalive_timeout_seconds = match get_i64_field(
        sess,
        &String::from_str("keepalive_timeout_seconds"),
    ) {
        Some(n) => n,
        None => return None,
    };
    Some(
        SessionWelcome {
            session: SessionWelcomeSession {
                id,
                connected_at,
                status,
                reconnect_url,
                keepalive_timeout_seconds,
            },
        },
    )
}

/// Advance the handshake by one transport event.
pub fn handshake_step(ev: TransportEvent) -> (r: HandshakeStep)
    ensures
        r == spec_handshake_step(ev),
{
    let text = match ev {
        TransportEvent::Frame(WireFrame::Text(s)) => s,
        TransportEvent::Frame(_) => return HandshakeStep::Pending,
        TransportEvent::Closed => return HandshakeStep::Failed(HandshakeError::ConnectionDropped),
        TransportEvent::Failed(e) => return HandshakeStep::Failed(HandshakeError::Transport(e)),
    };
    let j = match parse_json(text.as_str()) {
        Some(j) => j,
        None => return HandshakeStep::Failed(HandshakeError::InvalidJson),
    };
    let msg = match parse_message(j) {
        Some(m) => m,
        None => return HandshakeStep::Failed(HandshakeError::InvalidEnvelope),
    };
    if msg.metadata.message_type != String::from_str("session_welcome") {
        return HandshakeStep::Failed(HandshakeError::NotWelcome);
    }
    match parse_session_welcome(&msg.payload) {
        Some(w) => HandshakeStep::Established(w),
        None => HandshakeStep::Failed(HandshakeError::InvalidWelcome),
    }
}

/// For any well-formed welcome received as a frame, the handshake is
/// established with a session whose id is exactly the frame's nested
/// session id field.
pub proof fn lemma_handshake_welcome_id(s: String, j: Json, msg: Message, w: SessionWelcome)
    requires
        json_parse(s@) == Some(j),
        spec_parse_message(j) == Some(msg),
        msg.metadata.message_type@ == "session_welcome"@,
        spec_parse_session_welcome(msg.payload) == Some(w),
    ensures
        spec_handshake_step(TransportEvent::Frame(WireFrame::Text(s)))
            == HandshakeStep::Established(w),
        match spec_field(msg.payload, "session"@) {
            Some(sess) => spec_str_field(sess, "id"@) == Some(w.session.id),
            None => false,
        },
{
}

/// Any application message of a type other than `session_welcome` received
/// before the welcome fails the handshake at once, so no further frame is
/// consumed.
pub proof fn lemma_handshake_rejects_first_non_welcome(s: String, j: Json, msg: Message)
    requires
        json_parse(s@) == Some(j),
        spec_parse_message(j) == Some(msg),
        msg.metadata.message_type@ != "session_welcome"@,
    ensures
        spec_handshake_step(TransportEvent::Frame(WireFrame::Text(s))) == HandshakeStep::Failed(
            HandshakeError::NotWelcome,
        ),
{
}

} // verus!
