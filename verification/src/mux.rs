//! The event-stream multiplexer: a single-threaded cooperative poller with
//! two wake sources, the keepalive timer and the transport.  The embedding
//! program waits on whichever source becomes ready, feeds the resulting
//! event into `step`, performs the send the returned action asks for, and
//! reports the send's outcome through `send_completed`.  One pull of the
//! consumer corresponds to driving `step` until it yields an event or ends
//! the sequence.
use vstd::prelude::*;

use crate::envelope::parse_message;
use crate::envelope::spec_parse_message;
use crate::events::DecodeFailure;
use crate::events::Disposition;
use crate::events::DispositionKind;
use crate::events::NotificationType;
use crate::events::classify;
use crate::events::spec_classify_kind;
use crate::events::spec_delivered_event;
use crate::json::json_parse;
use crate::json::parse_json;
use crate::timer::KEEPALIVE_INTERVAL_MS;
use crate::timer::KeepaliveTimer;
use crate::transport::TransportEvent;
use crate::transport::WireFrame;

verus! {

/// Why the stream terminated.
#[derive(Debug, PartialEq, Eq)]
pub enum StreamError {
    /// A text frame that is not well-formed JSON.
    InvalidJson,
    /// A document without the message envelope's required fields.
    InvalidEnvelope,
    /// A notification frame that could not be decoded.
    Decode(DecodeFailure),
    /// The keepalive ping could not be sent.
    PingSendFailed,
    /// The answer to an inbound ping could not be sent.
    PongSendFailed,
    /// The transport reported an error, with its message.
    Transport(String),
}

/// Where the multiplexer stands between events.
#[derive(Debug, Clone, Copy, PartialEq, Eq, Structural)]
pub enum MuxMode {
    /// Ready for the next timer or transport event.
    Draining,
    /// A keepalive ping send is in flight; only its outcome may come next.
    SendingPing,
    /// A pong send is in flight; only its outcome may come next.
    SendingPong,
    /// The sequence is over: every further step reports end-of-sequence.
    Terminated,
}

/// One wakeup delivered to the multiplexer: the keepalive timer is due (with
/// the current time in milliseconds), or the transport produced an event.
#[derive(Debug, PartialEq, Eq)]
pub enum PollEvent {
    TimerFired(u64),
    FromTransport(TransportEvent),
}

/// What the driver must do after a step.
#[derive(Debug, PartialEq, Eq)]
pub enum PollAction {
    /// Send a keepalive ping, then report the outcome.
    SendPing,
    /// Send a pong answering an inbound ping, then report the outcome.
    SendPong,
    /// Deliver this event to the consumer.
    Yield(NotificationType),
    /// Nothing to deliver yet: wait for the next wakeup.
    Continue,
    /// End of sequence, now and at every later step.
    End,
}

/// The state of one live event stream: its mode, the keepalive timer, the
/// session established by the handshake, and the last fatal error, kept for
/// the consumer to inspect after the sequence ends.
#[derive(Debug, PartialEq, Eq)]
pub struct Multiplexer {
    pub mode: MuxMode,
    pub timer: KeepaliveTimer,
    pub session_id: String,
    pub last_error: Option<StreamError>,
}

/// The state with the sequence ended and the error recorded.
pub open spec fn spec_terminate(m: Multiplexer, e: StreamError) -> Multiplexer {
    Multiplexer { mode: MuxMode::Terminated, last_error: Some(e), ..m }
}

/// The state after handling a text frame: a decode failure of any stage
/// terminates the stream and records the error; otherwise the state is
/// unchanged.
pub open spec fn spec_text_state(m: Multiplexer, s: String) -> Multiplexer {
    match json_parse(s@) {
        None => spec_terminate(m, StreamError::InvalidJson),
        Some(j) => match spec_parse_message(j) {
            None => spec_terminate(m, StreamError::InvalidEnvelope),
            Some(msg) => match spec_classify_kind(msg) {
                DispositionKind::Fail(f) => spec_terminate(m, StreamError::Decode(f)),
                _ => m,
            },
        },
    }
}

/// Whether `a` is the action a text frame produces: yield the decoded
/// notification, consume a control message silently, or end the sequence on
/// a decode failure.
pub open spec fn spec_text_action(s: String, a: PollAction) -> bool {
    match json_parse(s@) {
        None => a == PollAction::End,
        Some(j) => match spec_parse_message(j) {
            None => a == PollAction::End,
            Some(msg) => match spec_classify_kind(msg) {
                DispositionKind::Skip => a == PollAction::Continue,
                DispositionKind::Deliver => match a {
                    PollAction::Yield(nt) => spec_delivered_event(msg, nt),
                    _ => false,
                },
                DispositionKind::Fail(_) => a == PollAction::End,
            },
        },
    }
}

/// The state after one step.  A due timer is reset one interval past `now`
/// and a ping send begins; an inbound ping starts a pong send; closure and
/// transport errors terminate; text frames follow `spec_text_state`.
pub open spec fn spec_step_state(m: Multiplexer, ev: PollEvent) -> Multiplexer {
    if m.mode is Terminated {
        m
    } else {
        match ev {
            PollEvent::TimerFired(now) => if now >= m.timer.deadline_ms {
                Multiplexer {
                    mode: MuxMode::SendingPing,
                    timer: KeepaliveTimer {
                        interval_ms: m.timer.interval_ms,
                        deadline_ms: (now + m.timer.interval_ms) as u64,
                    },
                    ..m
                }
            } else {
                m
            },
            PollEvent::FromTransport(te) => match te {
                TransportEvent::Frame(WireFrame::Ping) => Multiplexer {
                    mode: MuxMode::SendingPong,
                    ..m
                },
                TransportEvent::Frame(WireFrame::Pong) => m,
                TransportEvent::Frame(WireFrame::Other) => m,
                TransportEvent::Frame(WireFrame::Text(s)) => spec_text_state(m, s),
                TransportEvent::Closed => Multiplexer { mode: MuxMode::Terminated, ..m },
                TransportEvent::Failed(e) => spec_terminate(m, StreamError::Transport(e)),
            },
        }
    }
}

/// Whether `a` is the action one step produces.  In the terminated state
/// every step reports `End`; a due timer asks for exactly one ping; an
/// inbound ping asks for exactly one pong; text frames follow
/// `spec_text_action`.
pub open spec fn spec_step_action(m: Multiplexer, ev: PollEvent, a: PollAction) -> bool {
    if m.mode is Terminated {
        a == PollAction::End
    } else {
        match ev {
            PollEvent::TimerFired(now) => if now >= m.timer.deadline_ms {
                a == PollAction::SendPing
            } else {
                a == PollAction::Continue
            },
            PollEvent::FromTransport(te) => match te {
                TransportEvent::Frame(WireFrame::Ping) => a == PollAction::SendPong,
                TransportEvent::Frame(WireFrame::Pong) => a == PollAction::Continue,
                TransportEvent::Frame(WireFrame::Other) => a == PollAction::Continue,
                TransportEvent::Frame(WireFrame::Text(s)) => spec_text_action(s, a),
                TransportEvent::Closed => a == PollAction::End,
                TransportEvent::Failed(_) => a == PollAction::End,
            },
        }
    }
}

/// The state after a send completes: success resumes draining; failure
/// terminates the stream and records which send failed.
pub open spec fn spec_send_completed_state(m: Multiplexer, ok: bool) -> Multiplexer {
    if ok {
        Multiplexer { mode: MuxMode::Draining, ..m }
    } else if m.mode is SendingPing {
        spec_terminate(m, StreamError::PingSendFailed)
    } else {
        spec_terminate(m, StreamError::PongSendFailed)
    }
}

impl Multiplexer {
    /// A live stream for an established session: draining, no error, the
    /// keepalive timer armed one interval from now.
    pub fn new(session_id: String, now_ms: u64) -> (r: Multiplexer)
        requires
            now_ms + KEEPALIVE_INTERVAL_MS <= u64::MAX,
        ensures
            r.mode == MuxMode::Draining,
            r.session_id == session_id,
            r.last_error is None,
            r.timer.interval_ms == KEEPALIVE_INTERVAL_MS,
            r.timer.deadline_ms == now_ms + KEEPALIVE_INTERVAL_MS,
    {
        Multiplexer {
            mode: MuxMode::Draining,
            timer: KeepaliveTimer::new(KEEPALIVE_INTERVAL_MS, now_ms),
            session_id,
            last_error: None,
        }
    }

    /// Handle one text frame: decode it and either yield its event, consume
    /// it silently, or end the sequence.
    fn handle_text(&mut self, s: String) -> (r: PollAction)
        requires
            old(self).mode == MuxMode::Draining,
        ensures
            *final(self) == spec_text_state(*old(self), s),
            spec_text_action(s, r),
    {
        let j = match parse_json(s.as_str()) {
            Some(j) => j,
            None => {
                self.mode = MuxMode::Terminated;
                self.last_error = Some(StreamError::InvalidJson);
                return PollAction::End;
            },
        };
        let msg = match parse_message(j) {
            Some(m) => m,
            None => {
                self.mode = MuxMode::Terminated;
                self.last_error = Some(StreamError::InvalidEnvelope);
                return PollAction::End;
            },
        };
        match classify(msg) {
            Disposition::Skip => PollAction::Continue,
            Disposition::Deliver(nt) => PollAction::Yield(nt),
            Disposition::Fail(f) => {
                self.mode = MuxMode::Terminated;
                self.last_error = Some(StreamError::Decode(f));
                PollAction::End
            },
        }
    }

    /// Advance the stream by one wakeup.  The caller must have completed any
    /// send the previous step asked for, and the timer reset must not run
    /// past the clock's range.
    pub fn step(&mut self, ev: PollEvent) -> (r: PollAction)
        requires
            old(self).mode != MuxMode::SendingPing,
            old(self).mode != MuxMode::SendingPong,
            match ev {
                PollEvent::TimerFired(now) => now + old(self).timer.interval_ms <= u64::MAX,
                _ => true,
            },
        ensures
            *final(self) == spec_step_state(*old(self), ev),
            spec_step_action(*old(self), ev, r),
    {
        match self.mode {
            MuxMode::Terminated => return PollAction::End,
            _ => {},
        }
        match ev {
            PollEvent::TimerFired(now) => {
                if self.timer.elapsed(now) {
                    self.timer.reset(now);
                    self.mode = MuxMode::SendingPing;
                    PollAction::SendPing
                } else {
                    PollAction::Continue
                }
            },
            PollEvent::FromTransport(te) => match te {
                TransportEvent::Frame(WireFrame::Ping) => {
                    self.mode = MuxMode::SendingPong;
                    PollAction::SendPong
                },
                TransportEvent::Frame(WireFrame::Pong) => PollAction::Continue,
                TransportEvent::Frame(WireFrame::Other) => PollAction::Continue,
                TransportEvent::Frame(WireFrame::Text(s)) => self.handle_text(s),
                TransportEvent::Closed => {
                    self.mode = MuxMode::Terminated;
                    PollAction::End
                },
                TransportEvent::Failed(e) => {
                    self.mode = MuxMode::Terminated;
                    self.last_error = Some(StreamError::Transport(e));
                    PollAction::End
                },
            },
        }
    }

    /// Report the outcome of the send the last step asked for.
    pub fn send_completed(&mut self, ok: bool) -> (r: PollAction)
        requires
            old(self).mode == MuxMode::SendingPing || old(self).mode == MuxMode::SendingPong,
        ensures
            *final(self) == spec_send_completed_state(*old(self), ok),
            r == if ok {
                PollAction::Continue
            } else {
                PollAction::End
            },
    {
        if ok {
            self.mode = MuxMode::Draining;
            PollAction::Continue
        } else {
            let e = match self.mode {
                MuxMode::SendingPing => StreamError::PingSendFailed,
                _ => StreamError::PongSendFailed,
            };
            self.mode = MuxMode::Terminated;
            self.last_error = Some(e);
            PollAction::End
        }
    }
}

/// The state after a whole sequence of wakeups.
pub open spec fn spec_run_state(m: Multiplexer, evs: Seq<PollEvent>) -> Multiplexer
    decreases evs.len(),
{
    if evs.len() == 0 {
        m
    } else {
        spec_run_state(spec_step_state(m, evs[0]), evs.drop_first())
    }
}

/// End of sequence is absorbing: a terminated stream is unchanged by any
/// event and the only action any step allows is `End`.
pub proof fn lemma_terminated_absorbs(m: Multiplexer, ev: PollEvent)
    requires
        m.mode is Terminated,
    ensures
        spec_step_state(m, ev) == m,
        forall|a: PollAction| spec_step_action(m, ev, a) <==> a == PollAction::End,
{
}

/// A terminated stream stays terminated over any sequence of events.
pub proof fn lemma_terminated_run(m: Multiplexer, evs: Seq<PollEvent>)
    requires
        m.mode is Terminated,
    ensures
        spec_run_state(m, evs) == m,
    decreases evs.len(),
{
    if evs.len() > 0 {
        lemma_terminated_run(spec_step_state(m, evs[0]), evs.drop_first());
    }
}

/// After a decode failure on a notification frame the stream is terminated
/// with the failure recorded, and every later step — whatever events follow
/// — leaves the state unchanged and allows only `End`.
pub proof fn lemma_decode_failure_ends_stream(
    m: Multiplexer,
    s: String,
    f: DecodeFailure,
    evs: Seq<PollEvent>,
)
    requires
        m.mode is Draining,
        match json_parse(s@) {
            Some(j) => match spec_parse_message(j) {
                Some(msg) => spec_classify_kind(msg) == DispositionKind::Fail(f),
                None => false,
            },
            None => false,
        },
    ensures
        ({
            let m1 = spec_step_state(
                m,
                PollEvent::FromTransport(TransportEvent::Frame(WireFrame::Text(s))),
            );
            &&& m1.mode is Terminated
            &&& m1.last_error == Some(StreamError::Decode(f))
            &&& spec_run_state(m1, evs) == m1
            &&& forall|k: int, a: PollAction|
                0 <= k < evs.len() ==> (spec_step_action(
                    spec_run_state(m1, evs.take(k)),
                    evs[k],
                    a,
                ) <==> a == PollAction::End)
        }),
{
    let m1 = spec_step_state(m, PollEvent::FromTransport(TransportEvent::Frame(WireFrame::Text(s))));
    lemma_terminated_run(m1, evs);
    assert forall|k: int, a: PollAction|
        0 <= k < evs.len() implies (spec_step_action(spec_run_state(m1, evs.take(k)), evs[k], a)
        <==> a == PollAction::End) by {
        lemma_terminated_run(m1, evs.take(k));
        lemma_terminated_absorbs(spec_run_state(m1, evs.take(k)), evs[k]);
    }
}

/// An inbound ping asks for exactly one pong, and nothing else can happen
/// before that send completes: the step moves the stream into the
/// pong-sending mode, in which only `send_completed` is accepted; success
/// resumes draining and a failed send ends the sequence.
pub proof fn lemma_ping_answered_by_one_pong(m: Multiplexer)
    requires
        m.mode is Draining,
    ensures
        ({
            let m1 = spec_step_state(
                m,
                PollEvent::FromTransport(TransportEvent::Frame(WireFrame::Ping)),
            );
            &&& forall|a: PollAction|
                spec_step_action(
                    m,
                    PollEvent::FromTransport(TransportEvent::Frame(WireFrame::Ping)),
                    a,
                ) <==> a == PollAction::SendPong
            &&& m1.mode is SendingPong
            &&& spec_send_completed_state(m1, true) == Multiplexer {
                mode: MuxMode::Draining,
                ..m
            }
            &&& spec_send_completed_state(m1, false) == spec_terminate(
                Multiplexer { mode: MuxMode::SendingPong, ..m },
                StreamError::PongSendFailed,
            )
        }),
{
}

/// When the keepalive interval elapses with no other activity, exactly one
/// ping is asked for and the timer deadline advances by exactly one
/// interval; fired at each deadline in turn, the deadline after `n` fires
/// stands `n` intervals after where it began (see
/// `crate::timer::lemma_keepalive_periodicity`).
pub proof fn lemma_keepalive_fire(m: Multiplexer)
    requires
        m.mode is Draining,
        m.timer.deadline_ms + m.timer.interval_ms <= u64::MAX,
    ensures
        ({
            let m1 = spec_step_state(m, PollEvent::TimerFired(m.timer.deadline_ms));
            &&& forall|a: PollAction|
                spec_step_action(m, PollEvent::TimerFired(m.timer.deadline_ms), a) <==> a
                    == PollAction::SendPing
            &&& m1.mode is SendingPing
            &&& m1.timer.deadline_ms == m.timer.deadline_ms + m.timer.interval_ms
            &&& m1.timer.interval_ms == m.timer.interval_ms
        }),
{
}

} // verus!
