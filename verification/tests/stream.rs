use eventsub_client::events::{DecodeFailure, NotificationType};
use eventsub_client::handshake::{handshake_step, HandshakeStep};
use eventsub_client::mux::{Multiplexer, MuxMode, PollAction, PollEvent, StreamError};
use eventsub_client::timer::{KeepaliveTimer, KEEPALIVE_INTERVAL_MS};
use eventsub_client::transport::{TransportEvent, WireFrame};

fn s(x: &str) -> String {
    x.to_string()
}

fn frame(t: &str) -> PollEvent {
    PollEvent::FromTransport(TransportEvent::Frame(WireFrame::Text(s(t))))
}

const ONLINE: &str = "{\"metadata\":{\"message_id\":\"m1\",\"message_timestamp\":\"t\",\
     \"message_type\":\"notification\",\"subscription_type\":\"stream.online\",\
     \"subscription_version\":\"1\"},\
     \"payload\":{\"subscription\":{},\"event\":{\
     \"id\":\"42\",\"broadcaster_user_id\":\"1\",\
     \"broadcaster_user_login\":\"streamer\",\"broadcaster_user_name\":\"Streamer\",\
     \"type\":\"live\",\"started_at\":\"t1\"}}}";

const KEEPALIVE: &str = "{\"metadata\":{\"message_id\":\"m2\",\"message_timestamp\":\"t\",\
     \"message_type\":\"session_keepalive\"},\"payload\":{}}";

#[test]
fn timer_fires_at_deadline_and_resets() {
    let mut t = KeepaliveTimer::new(KEEPALIVE_INTERVAL_MS, 0);
    assert_eq!(t.deadline_ms, 30000);
    assert!(!t.elapsed(0));
    assert!(!t.elapsed(29999));
    assert!(t.elapsed(30000));
    assert!(t.elapsed(30001));
    t.reset(30000);
    assert_eq!(t.deadline_ms, 60000);
    assert!(!t.elapsed(30000));
}

#[test]
fn keepalive_sends_one_ping_per_interval() {
    // The interval elapses with no other activity: exactly one ping is
    // asked for and the deadline advances by exactly one interval; this
    // repeats fire after fire.
    let mut m = Multiplexer::new(s("abc"), 0);
    assert_eq!(m.timer.deadline_ms, 30000);

    assert_eq!(m.step(PollEvent::TimerFired(29999)), PollAction::Continue);
    assert_eq!(m.mode, MuxMode::Draining);

    assert_eq!(m.step(PollEvent::TimerFired(30000)), PollAction::SendPing);
    assert_eq!(m.mode, MuxMode::SendingPing);
    assert_eq!(m.timer.deadline_ms, 60000);
    assert_eq!(m.send_completed(true), PollAction::Continue);
    assert_eq!(m.mode, MuxMode::Draining);

    assert_eq!(m.step(PollEvent::TimerFired(60000)), PollAction::SendPing);
    assert_eq!(m.timer.deadline_ms, 90000);
    assert_eq!(m.send_completed(true), PollAction::Continue);
    assert_eq!(m.last_error, None);
}

#[test]
fn ping_send_failure_ends_the_stream() {
    let mut m = Multiplexer::new(s("abc"), 0);
    assert_eq!(m.step(PollEvent::TimerFired(30000)), PollAction::SendPing);
    assert_eq!(m.send_completed(false), PollAction::End);
    assert_eq!(m.mode, MuxMode::Terminated);
    assert_eq!(m.last_error, Some(StreamError::PingSendFailed));
    assert_eq!(m.step(frame(ONLINE)), PollAction::End);
}

#[test]
fn inbound_ping_gets_exactly_one_pong_before_anything_else() {
    let mut m = Multiplexer::new(s("abc"), 0);
    let r = m.step(PollEvent::FromTransport(TransportEvent::Frame(WireFrame::Ping)));
    assert_eq!(r, PollAction::SendPong);
    // Until the pong send completes, the stream accepts no further frame.
    assert_eq!(m.mode, MuxMode::SendingPong);
    assert_eq!(m.send_completed(true), PollAction::Continue);
    assert_eq!(m.mode, MuxMode::Draining);
    // Only then is the next frame processed.
    match m.step(frame(ONLINE)) {
        PollAction::Yield(NotificationType::StreamOnline(e)) => assert_eq!(e.id, "42"),
        other => panic!("expected a stream online event, got {:?}", other),
    }
}

#[test]
fn pong_send_failure_ends_the_stream() {
    let mut m = Multiplexer::new(s("abc"), 0);
    assert_eq!(
        m.step(PollEvent::FromTransport(TransportEvent::Frame(WireFrame::Ping))),
        PollAction::SendPong
    );
    assert_eq!(m.send_completed(false), PollAction::End);
    assert_eq!(m.mode, MuxMode::Terminated);
    assert_eq!(m.last_error, Some(StreamError::PongSendFailed));
}

#[test]
fn control_messages_are_consumed_silently() {
    let mut m = Multiplexer::new(s("abc"), 0);
    assert_eq!(m.step(frame(KEEPALIVE)), PollAction::Continue);
    assert_eq!(
        m.step(PollEvent::FromTransport(TransportEvent::Frame(WireFrame::Pong))),
        PollAction::Continue
    );
    assert_eq!(
        m.step(PollEvent::FromTransport(TransportEvent::Frame(WireFrame::Other))),
        PollAction::Continue
    );
    assert_eq!(m.mode, MuxMode::Draining);
    assert_eq!(m.last_error, None);
}

#[test]
fn decode_failure_ends_the_stream_for_good() {
    // A notification missing its subscription type is a decode failure;
    // every later pull reports end-of-sequence, whatever follows.
    let bad = "{\"metadata\":{\"message_id\":\"m1\",\"message_timestamp\":\"t\",\
         \"message_type\":\"notification\"},\
         \"payload\":{\"subscription\":{},\"event\":{}}}";
    let mut m = Multiplexer::new(s("abc"), 0);
    assert_eq!(m.step(frame(bad)), PollAction::End);
    assert_eq!(m.mode, MuxMode::Terminated);
    assert_eq!(m.last_error, Some(StreamError::Decode(DecodeFailure::MissingSubtype)));

    assert_eq!(m.step(frame(ONLINE)), PollAction::End);
    assert_eq!(m.step(PollEvent::FromTransport(TransportEvent::Frame(WireFrame::Ping))), PollAction::End);
    assert_eq!(m.step(PollEvent::TimerFired(30000)), PollAction::End);
    assert_eq!(m.step(PollEvent::FromTransport(TransportEvent::Closed)), PollAction::End);
    assert_eq!(m.last_error, Some(StreamError::Decode(DecodeFailure::MissingSubtype)));
}

#[test]
fn malformed_json_ends_the_stream() {
    let mut m = Multiplexer::new(s("abc"), 0);
    assert_eq!(m.step(frame("{nope")), PollAction::End);
    assert_eq!(m.last_error, Some(StreamError::InvalidJson));
}

#[test]
fn bad_envelope_ends_the_stream() {
    let mut m = Multiplexer::new(s("abc"), 0);
    assert_eq!(m.step(frame("{\"payload\":{}}")), PollAction::End);
    assert_eq!(m.last_error, Some(StreamError::InvalidEnvelope));
}

#[test]
fn bad_event_body_ends_the_stream() {
    let bad_event = "{\"metadata\":{\"message_id\":\"m1\",\"message_timestamp\":\"t\",\
         \"message_type\":\"notification\",\"subscription_type\":\"stream.online\",\
         \"subscription_version\":\"1\"},\
         \"payload\":{\"subscription\":{},\"event\":{}}}";
    let mut m = Multiplexer::new(s("abc"), 0);
    assert_eq!(m.step(frame(bad_event)), PollAction::End);
    assert_eq!(m.last_error, Some(StreamError::Decode(DecodeFailure::InvalidEvent)));
}

#[test]
fn transport_error_is_recorded() {
    let mut m = Multiplexer::new(s("abc"), 0);
    assert_eq!(
        m.step(PollEvent::FromTransport(TransportEvent::Failed(s("reset by peer")))),
        PollAction::End
    );
    assert_eq!(m.mode, MuxMode::Terminated);
    assert_eq!(m.last_error, Some(StreamError::Transport(s("reset by peer"))));
}

#[test]
fn clean_close_ends_without_error() {
    let mut m = Multiplexer::new(s("abc"), 0);
    assert_eq!(m.step(PollEvent::FromTransport(TransportEvent::Closed)), PollAction::End);
    assert_eq!(m.mode, MuxMode::Terminated);
    assert_eq!(m.last_error, None);
}

#[test]
fn unknown_notification_is_delivered_through_catch_all() {
    let t = "{\"metadata\":{\"message_id\":\"m1\",\"message_timestamp\":\"t\",\
         \"message_type\":\"notification\",\"subscription_type\":\"channel.new_thing\",\
         \"subscription_version\":\"1\"},\
         \"payload\":{\"subscription\":{},\"event\":{\"n\":1}}}";
    let mut m = Multiplexer::new(s("abc"), 0);
    match m.step(frame(t)) {
        PollAction::Yield(NotificationType::Other(payload)) => {
            // The catch-all carries the unmodified payload.
            assert_eq!(payload, eventsub_client::json::parse_json(
                "{\"subscription\":{},\"event\":{\"n\":1}}").unwrap());
        }
        other => panic!("expected the catch-all event, got {:?}", other),
    }
    assert_eq!(m.mode, MuxMode::Draining);
}

#[test]
fn end_to_end_welcome_then_online_then_close() {
    // Handshake: the first frame is the welcome with session id "abc".
    let welcome = "{\"metadata\":{\"message_id\":\"m0\",\"message_timestamp\":\"t\",\
         \"message_type\":\"session_welcome\"},\
         \"payload\":{\"session\":{\"id\":\"abc\",\"connected_at\":\"t0\",\
         \"status\":\"connected\",\"reconnect_url\":null,\
         \"keepalive_timeout_seconds\":10}}}";
    let session = match handshake_step(TransportEvent::Frame(WireFrame::Text(s(welcome)))) {
        HandshakeStep::Established(w) => w.session,
        other => panic!("expected an established session, got {:?}", other),
    };
    assert_eq!(session.id, "abc");

    // First pull yields the stream-online event.
    let mut m = Multiplexer::new(session.id, 0);
    assert_eq!(m.session_id, "abc");
    match m.step(frame(ONLINE)) {
        PollAction::Yield(NotificationType::StreamOnline(e)) => {
            assert_eq!(e.broadcaster_user_id, "1");
        }
        other => panic!("expected a stream online event, got {:?}", other),
    }

    // The transport closes: the second pull reports end-of-sequence.
    assert_eq!(m.step(PollEvent::FromTransport(TransportEvent::Closed)), PollAction::End);
    assert_eq!(m.step(PollEvent::FromTransport(TransportEvent::Closed)), PollAction::End);
    assert_eq!(m.last_error, None);
}
