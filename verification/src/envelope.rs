//! The message envelope: every inbound application message is a JSON object
//! with a `metadata` object (routing information) and a `payload` (the
//! message body, kept as an untyped document).
use vstd::prelude::*;
use vstd::string::StringExecFns;

use crate::json::Json;
use crate::json::get_field;
use crate::json::get_opt_str_field;
use crate::json::get_str_field;
use crate::json::obj_lookup;
use crate::json::spec_field;
use crate::json::spec_opt_str_field;
use crate::json::spec_str_field;

verus! {

/// Routing metadata carried by every inbound message.
#[derive(Debug, Clone, PartialEq, Eq)]
pub struct MessageMetadata {
    pub message_id: String,
    pub message_timestamp: String,
    pub message_type: String,
    pub subscription_type: Option<String>,
    pub subscription_version: Option<String>,
}

/// One decoded inbound message: its metadata and its untyped payload.
#[derive(Debug, PartialEq, Eq)]
pub struct Message {
    pub metadata: MessageMetadata,
    pub payload: Json,
}

/// The body of a notification message: the subscription that produced it and
/// the event itself, both untyped.
#[derive(Debug, PartialEq, Eq)]
pub struct Notification {
    pub subscription: Json,
    pub event: Json,
}

/// The metadata object that a document decodes to: the three identifying
/// strings are required, the two subscription fields are optional.
pub open spec fn spec_parse_metadata(j: Json) -> Option<MessageMetadata> {
    match (
        spec_str_field(j, "message_id"@),
        spec_str_field(j, "message_timestamp"@),
        spec_str_field(j, "message_type"@),
        spec_opt_str_field(j, "subscription_type"@),
        spec_opt_str_field(j, "subscription_version"@),
    ) {
        (Some(message_id), Some(message_timestamp), Some(message_type), Some(subscription_type), Some(subscription_version)) => Some(
            MessageMetadata {
                message_id,
                message_timestamp,
                message_type,
                subscription_type,
                subscription_version,
            },
        ),
        _ => None,
    }
}

/// The message that a document decodes to: a `metadata` object and a
/// `payload` field, both required.
pub open spec fn spec_parse_message(j: Json) -> Option<Message> {
    match spec_field(j, "metadata"@) {
        Some(meta_doc) => match (spec_parse_metadata(meta_doc), spec_field(j, "payload"@)) {
            (Some(metadata), Some(payload)) => Some(Message { metadata, payload }),
            _ => None,
        },
        None => None,
    }
}

/// The notification body that a payload decodes to: a `subscription` field
/// and an `event` field, both required, both left untyped.
pub open spec fn spec_parse_notification(j: Json) -> Option<Notification> {
    match (spec_field(j, "subscription"@), spec_field(j, "event"@)) {
        (Some(subscription), Some(event)) => Some(Notification { subscription, event }),
        _ => None,
    }
}

/// Decode the metadata object of a message.
pub fn parse_metadata(j: &Json) -> (r: Option<MessageMetadata>)
    ensures
        r == spec_parse_metadata(*j),
{
    let message_id = match get_str_field(j, &String::from_str("message_id")) {
        Some(s) => s,
        None => return None,
    };
    let message_timestamp = match get_str_field(j, &String::from_str("message_timestamp")) {
        Some(s) => s,
        None => return None,
    };
    let message_type = match get_str_field(j, &String::from_str("message_type")) {
        Some(s) => s,
        None => return None,
    };
    let subscription_type = match get_opt_str_field(j, &String::from_str("subscription_type")) {
        Some(o) => o,
        None => return None,
    };
    let subscription_version = match get_opt_str_field(j, &String::from_str("subscription_version")) {
        Some(o) => o,
        None => return None,
    };
    Some(
        MessageMetadata {
            message_id,
            message_timestamp,
            message_type,
            subscription_type,
            subscription_version,
        },
    )
}

/// Decode one inbound message, taking ownership of its payload.
pub fn parse_message(j: Json) -> (r: Option<Message>)
    ensures
        r == spec_parse_message(j),
{
    let metadata = match get_field(&j, &String::from_str("metadata")) {
        Some(meta_doc) => match parse_metadata(meta_doc) {
            Some(m) => m,
            None => return None,
        },
        None => return None,
    };
    match j {
        Json::Obj(mut entries) => {
            match crate::json::obj_find(&entries, &String::from_str("payload")) {
                Some(i) => {
                    let entry = entries.remove(i);
                    Some(Message { metadata, payload: entry.1 })
                },
                None => None,
            }
        },
        _ => None,
    }
}

/// Decode a notification payload, taking ownership of both parts.
pub fn parse_notification(j: Json) -> (r: Option<Notification>)
    ensures
        r == spec_parse_notification(j),
{
    let mut entries = match j {
        Json::Obj(entries) => entries,
        _ => return None,
    };
    let i_sub = match crate::json::obj_find(&entries, &String::from_str("subscription")) {
        Some(i) => i,
        None => {
            return None;
        },
    };
    let i_ev = match crate::json::obj_find(&entries, &String::from_str("event")) {
        Some(i) => i,
        None => {
            return None;
        },
    };
    proof {
        reveal_strlit("subscription");
        reveal_strlit("event");
        assert("subscription"@.len() == 12);
        assert("event"@.len() == 5);
        assert(i_sub != i_ev);
    }
    if i_sub < i_ev {
        let event = entries.remove(i_ev).1;
        let subscription = entries.remove(i_sub).1;
        Some(Notification { subscription, event })
    } else {
        let subscription = entries.remove(i_sub).1;
        let event = entries.remove(i_ev).1;
        Some(Notification { subscription, event })
    }
}

} // verus!
