//! Topic subscription: for each requested (topic, version) pair one
//! registration request is built, scoped to the acting principal and bound
//! to the handshake's session.  The registration call itself is an external
//! HTTP request; the embedding program issues the requests in order and
//! reports each outcome.  Registration is all-or-nothing: the first failure
//! aborts the whole step with one aggregate failure.
use vstd::prelude::*;
use vstd::string::StringExecFns;

verus! {

/// How the service should deliver events for a subscription.
#[derive(Debug, Clone, PartialEq, Eq)]
pub struct EventSubTransport {
    pub method: String,
    pub callback: Option<String>,
    pub secret: Option<String>,
    pub session_id: Option<String>,
    pub connected_at: Option<String>,
}

/// The scoping ids of a subscription.  Every id that could plausibly apply
/// is set to the same principal, since the service ignores the fields a
/// given topic does not need.
#[derive(Debug, Clone, PartialEq, Eq)]
pub struct EventSubCondition {
    pub broadcaster_id: Option<String>,
    pub broadcaster_user_id: Option<String>,
    pub moderator_user_id: Option<String>,
    pub user_id: Option<String>,
    pub reward_id: Option<String>,
}

/// One registration request: a topic, its version, the scoping condition,
/// and the websocket transport bound to the session.
#[derive(Debug, Clone, PartialEq, Eq)]
pub struct EventSubCreate {
    pub kind: String,
    pub version: String,
    pub condition: EventSubCondition,
    pub transport: EventSubTransport,
}

/// Why the subscription step failed.
#[derive(Debug, Clone, Copy, PartialEq, Eq, Structural)]
pub enum SubscribeError {
    /// Some registration call failed; no partial success is reported.
    RegistrationFailed,
}

/// Whether `r` is exactly the registration request for the given topic,
/// principal and session.
pub open spec fn spec_request_for(
    r: EventSubCreate,
    topic: (String, String),
    principal_id: String,
    session_id: String,
) -> bool {
    &&& r.kind == topic.0
    &&& r.version == topic.1
    &&& r.condition.broadcaster_id == Some(principal_id)
    &&& r.condition.broadcaster_user_id == Some(principal_id)
    &&& r.condition.moderator_user_id == Some(principal_id)
    &&& r.condition.user_id == Some(principal_id)
    &&& r.condition.reward_id is None
    &&& r.transport.method@ == "websocket"@
    &&& r.transport.callback is None
    &&& r.transport.secret is None
    &&& r.transport.session_id == Some(session_id)
    &&& r.transport.connected_at is None
}

/// Build one registration request per requested topic, in order, each
/// scoped to the principal and bound to the session.
pub fn build_subscription_requests(
    topics: &Vec<(String, String)>,
    principal_id: &String,
    session_id: &String,
) -> (r: Vec<EventSubCreate>)
    ensures
        r@.len() == topics@.len(),
        forall|k: int|
            0 <= k < topics@.len() ==> spec_request_for(
                r@[k],
                topics@[k],
                *principal_id,
                *session_id,
            ),
{
    let mut out: Vec<EventSubCreate> = Vec::new();
    let mut i: usize = 0;
    while i < topics.len()
        invariant
            i <= topics@.len(),
            out@.len() == i,
            forall|k: int|
                0 <= k < i ==> spec_request_for(out@[k], topics@[k], *principal_id, *session_id),
        decreases topics@.len() - i,
    {
        let topic = &topics[i];
        out.push(
            EventSubCreate {
                kind: topic.0.clone(),
                version: topic.1.clone(),
                condition: EventSubCondition {
                    broadcaster_id: Some(principal_id.clone()),
                    broadcaster_user_id: Some(principal_id.clone()),
                    moderator_user_id: Some(principal_id.clone()),
                    user_id: Some(principal_id.clone()),
                    reward_id: None,
                },
                transport: EventSubTransport {
                    method: String::from_str("websocket"),
                    callback: None,
                    secret: None,
                    session_id: Some(session_id.clone()),
                    connected_at: None,
                },
            },
        );
        i = i + 1;
    }
    out
}

/// The subscription step as the driver sees it: the requests to issue, how
/// many have succeeded, and whether one has failed.  The driver issues
/// `next_request` and reports each outcome; after a failure no further
/// request is issued and the whole step reports one aggregate failure.
#[derive(Debug, PartialEq, Eq)]
pub struct SubscriptionPlan {
    pub requests: Vec<EventSubCreate>,
    pub issued: usize,
    pub failed: bool,
}

impl SubscriptionPlan {
    /// The plan for the requested topics: one request per topic, none
    /// issued yet.
    pub fn new(topics: &Vec<(String, String)>, principal_id: &String, session_id: &String) -> (r:
        SubscriptionPlan)
        ensures
            r.requests@.len() == topics@.len(),
            forall|k: int|
                0 <= k < topics@.len() ==> spec_request_for(
                    r.requests@[k],
                    topics@[k],
                    *principal_id,
                    *session_id,
                ),
            r.issued == 0,
            !r.failed,
    {
        SubscriptionPlan {
            requests: build_subscription_requests(topics, principal_id, session_id),
            issued: 0,
            failed: false,
        }
    }

    /// The next request to issue: the first not yet issued, unless one has
    /// already failed or all have been issued.
    pub fn next_request(&self) -> (r: Option<&EventSubCreate>)
        ensures
            match r {
                Some(req) => !self.failed && self.issued < self.requests@.len() && *req
                    == self.requests@[self.issued as int],
                None => self.failed || self.issued >= self.requests@.len(),
            },
    {
        if self.failed || self.issued >= self.requests.len() {
            None
        } else {
            Some(&self.requests[self.issued])
        }
    }

    /// Record that the current request was registered.
    pub fn record_success(&mut self)
        requires
            !old(self).failed,
            old(self).issued < old(self).requests@.len(),
        ensures
            *final(self) == (SubscriptionPlan {
                issued: (old(self).issued + 1) as usize,
                ..*old(self)
            }),
    {
        let n: usize = self.requests.len();
        proof {
            assert(old(self).issued < n);
        }
        self.issued = self.issued + 1;
    }

    /// Record that the current request failed: the whole step fails and no
    /// further request is issued.
    pub fn record_failure(&mut self)
        ensures
            *final(self) == (SubscriptionPlan { failed: true, ..*old(self) }),
    {
        self.failed = true;
    }

    /// The aggregate outcome: success only when every topic was registered
    /// and no call failed.
    pub fn outcome(&self) -> (r: Result<(), SubscribeError>)
        ensures
            r is Ok <==> !self.failed && self.issued == self.requests@.len(),
            r is Err ==> r == (Err::<(), SubscribeError>(SubscribeError::RegistrationFailed)),
    {
        if !self.failed && self.issued == self.requests.len() {
            Ok(())
        } else {
            Err(SubscribeError::RegistrationFailed)
        }
    }
}

} // verus!
