//! Typed event payloads and the dispatch that classifies a decoded message:
//! skip it, deliver a typed event, or fail the stream.
use vstd::prelude::*;
use vstd::string::StringExecFns;

use crate::envelope::Message;
use crate::envelope::spec_parse_notification;
use crate::json::Json;
use crate::json::get_field;
use crate::json::get_str_array_field;
use crate::json::get_str_field;
use crate::json::has_field;
use crate::json::spec_field;
use crate::json::spec_str_elems;
use crate::json::spec_str_field;

verus! {

/// A viewer started following the channel.
#[derive(Debug, Clone, PartialEq, Eq)]
pub struct ChannelFollow {
    pub user_id: String,
    pub user_login: String,
    pub user_name: String,
    pub broadcaster_user_id: String,
    pub broadcaster_user_login: String,
    pub broadcaster_user_name: String,
    pub followed_at: String,
}

/// The channel's metadata (title, category, ...) changed.
#[derive(Debug, Clone, PartialEq, Eq)]
pub struct ChannelUpdate {
    pub broadcaster_user_id: String,
    pub broadcaster_user_login: String,
    pub broadcaster_user_name: String,
    pub title: String,
    pub language: String,
    pub category_id: String,
    pub category_name: String,
    pub content_classification_labels: Vec<String>,
}

/// The reward a redemption refers to.
#[derive(Debug, Clone, PartialEq, Eq)]
pub struct CustomRewardRedemptionAddReward {
    pub id: String,
}

/// A viewer redeemed a custom channel-points reward.
#[derive(Debug, Clone, PartialEq, Eq)]
pub struct CustomRewardRedemptionAdd {
    pub id: String,
    pub user_login: String,
    pub user_input: String,
    pub reward: CustomRewardRedemptionAddReward,
}

/// The channel went live.
#[derive(Debug, Clone, PartialEq, Eq)]
pub struct StreamOnline {
    pub id: String,
    pub broadcaster_user_id: String,
    pub broadcaster_user_login: String,
    pub broadcaster_user_name: String,
    pub stream_type: String,
    pub started_at: String,
}

/// The channel went offline.
#[derive(Debug, Clone, PartialEq, Eq)]
pub struct StreamOffline {
    pub broadcaster_user_id: String,
    pub broadcaster_user_login: String,
    pub broadcaster_user_name: String,
}

/// One event delivered to the consumer: a closed set of typed variants plus
/// a catch-all that carries the unmodified payload of any notification whose
/// subscription type is not modeled here.
#[derive(Debug, PartialEq, Eq)]
pub enum NotificationType {
    ChannelUpdate(ChannelUpdate),
    CustomRewardRedemptionAdd(CustomRewardRedemptionAdd),
    StreamOnline(StreamOnline),
    StreamOffline(StreamOffline),
    Other(Json),
    ChannelFollow(ChannelFollow),
}

/// Why a notification frame could not be decoded.
#[derive(Debug, Clone, Copy, PartialEq, Eq, Structural)]
pub enum DecodeFailure {
    /// A notification message without a subscription type.
    MissingSubtype,
    /// A notification payload without the required `subscription` and
    /// `event` fields.
    InvalidNotification,
    /// An event body that does not match the shape its subscription type
    /// requires.
    InvalidEvent,
}

/// What the stream does with one decoded message.
#[derive(Debug, PartialEq, Eq)]
pub enum Disposition {
    /// A control message the stream does not care about: consumed silently.
    Skip,
    /// A decoded notification, delivered to the consumer.
    Deliver(NotificationType),
    /// A malformed notification: the stream terminates.
    Fail(DecodeFailure),
}

/// The shape of `Disposition`, without the delivered event.
#[derive(Debug, Clone, Copy, PartialEq, Eq, Structural)]
pub enum DispositionKind {
    Skip,
    Deliver,
    Fail(DecodeFailure),
}

/// The follow event a document decodes to: every field required.
pub open spec fn spec_channel_follow(e: Json) -> Option<ChannelFollow> {
    match (
        spec_str_field(e, "user_id"@),
        spec_str_field(e, "user_login"@),
        spec_str_field(e, "user_name"@),
        spec_str_field(e, "broadcaster_user_id"@),
        spec_str_field(e, "broadcaster_user_login"@),
        spec_str_field(e, "broadcaster_user_name"@),
        spec_str_field(e, "followed_at"@),
    ) {
        (
            Some(user_id),
            Some(user_login),
            Some(user_name),
            Some(broadcaster_user_id),
            Some(broadcaster_user_login),
            Some(broadcaster_user_name),
            Some(followed_at),
        ) => Some(
            ChannelFollow {
                user_id,
                user_login,
                user_name,
                broadcaster_user_id,
                broadcaster_user_login,
                broadcaster_user_name,
                followed_at,
            },
        ),
        _ => None,
    }
}

/// Whether a document has the shape of a channel-update event.
pub open spec fn spec_channel_update_ok(e: Json) -> bool {
    &&& spec_str_field(e, "broadcaster_user_id"@) is Some
    &&& spec_str_field(e, "broadcaster_user_login"@) is Some
    &&& spec_str_field(e, "broadcaster_user_name"@) is Some
    &&& spec_str_field(e, "title"@) is Some
    &&& spec_str_field(e, "language"@) is Some
    &&& spec_str_field(e, "category_id"@) is Some
    &&& spec_str_field(e, "category_name"@) is Some
    &&& match spec_field(e, "content_classification_labels"@) {
        Some(Json::Arr(elems)) => spec_str_elems(elems@) is Some,
        _ => false,
    }
}

/// Whether `cu` is exactly the channel-update event the document holds.
/// (The label list is a `Vec`, which a specification cannot build, so this
/// decode is stated as a relation rather than as a constructing function.)
pub open spec fn spec_channel_update_matches(e: Json, cu: ChannelUpdate) -> bool {
    &&& spec_str_field(e, "broadcaster_user_id"@) == Some(cu.broadcaster_user_id)
    &&& spec_str_field(e, "broadcaster_user_login"@) == Some(cu.broadcaster_user_login)
    &&& spec_str_field(e, "broadcaster_user_name"@) == Some(cu.broadcaster_user_name)
    &&& spec_str_field(e, "title"@) == Some(cu.title)
    &&& spec_str_field(e, "language"@) == Some(cu.language)
    &&& spec_str_field(e, "category_id"@) == Some(cu.category_id)
    &&& spec_str_field(e, "category_name"@) == Some(cu.category_name)
    &&& match spec_field(e, "content_classification_labels"@) {
        Some(Json::Arr(elems)) => spec_str_elems(elems@) == Some(cu.content_classification_labels@),
        _ => false,
    }
}

/// The redemption event a document decodes to: every field required, the
/// reward a nested object with its own required id.
pub open spec fn spec_redemption_add(e: Json) -> Option<CustomRewardRedemptionAdd> {
    match (
        spec_str_field(e, "id"@),
        spec_str_field(e, "user_login"@),
        spec_str_field(e, "user_input"@),
        spec_field(e, "reward"@),
    ) {
        (Some(id), Some(user_login), Some(user_input), Some(reward_doc)) => match spec_str_field(
            reward_doc,
            "id"@,
        ) {
            Some(reward_id) => Some(
                CustomRewardRedemptionAdd {
                    id,
                    user_login,
                    user_input,
                    reward: CustomRewardRedemptionAddReward { id: reward_id },
                },
            ),
            None => None,
        },
        _ => None,
    }
}

/// The stream-online event a document decodes to: every field required.
pub open spec fn spec_stream_online(e: Json) -> Option<StreamOnline> {
    match (
        spec_str_field(e, "id"@),
        spec_str_field(e, "broadcaster_user_id"@),
        spec_str_field(e, "broadcaster_user_login"@),
        spec_str_field(e, "broadcaster_user_name"@),
        spec_str_field(e, "type"@),
        spec_str_field(e, "started_at"@),
    ) {
        (
            Some(id),
            Some(broadcaster_user_id),
            Some(broadcaster_user_login),
            Some(broadcaster_user_name),
            Some(stream_type),
            Some(started_at),
        ) => Some(
            StreamOnline {
                id,
                broadcaster_user_id,
                broadcaster_user_login,
                broadcaster_user_name,
                stream_type,
                started_at,
            },
        ),
        _ => None,
    }
}

/// The stream-offline event a document decodes to: every field required.
pub open spec fn spec_stream_offline(e: Json) -> Option<StreamOffline> {
    match (
        spec_str_field(e, "broadcaster_user_id"@),
        spec_str_field(e, "broadcaster_user_login"@),
        spec_str_field(e, "broadcaster_user_name"@),
    ) {
        (Some(broadcaster_user_id), Some(broadcaster_user_login), Some(broadcaster_user_name)) => Some(
            StreamOffline {
                broadcaster_user_id,
                broadcaster_user_login,
                broadcaster_user_name,
            },
        ),
        _ => None,
    }
}

/// Decode a follow event body.
pub fn decode_channel_follow(e: &Json) -> (r: Option<ChannelFollow>)
    ensures
        r == spec_channel_follow(*e),
{
    let user_id = match get_str_field(e, &String::from_str("user_id")) {
        Some(s) => s,
        None => return None,
    };
    let user_login = match get_str_field(e, &String::from_str("user_login")) {
        Some(s) => s,
        None => return None,
    };
    let user_name = match get_str_field(e, &String::from_str("user_name")) {
        Some(s) => s,
        None => return None,
    };
    let broadcaster_user_id = match get_str_field(e, &String::from_str("broadcaster_user_id")) {
        Some(s) => s,
        None => return None,
    };
    let broadcaster_user_login = match get_str_field(
        e,
        &String::from_str("broadcaster_user_login"),
    ) {
        Some(s) => s,
        None => return None,
    };
    let broadcaster_user_name = match get_str_field(e, &String::from_str("broadcaster_user_name")) {
        Some(s) => s,
        None => return None,
    };
    let followed_at = match get_str_field(e, &String::from_str("followed_at")) {
        Some(s) => s,
        None => return None,
    };
    Some(
        ChannelFollow {
            user_id,
            user_login,
            user_name,
            broadcaster_user_id,
            broadcaster_user_login,
            broadcaster_user_name,
            followed_at,
        },
    )
}

/// Decode a channel-update event body.
pub fn decode_channel_update(e: &Json) -> (r: Option<ChannelUpdate>)
    ensures
        match r {
            Some(cu) => spec_channel_update_matches(*e, cu),
            None => !spec_channel_update_ok(*e),
        },
{
    let broadcaster_user_id = match get_str_field(e, &String::from_str("broadcaster_user_id")) {
        Some(s) => s,
        None => return None,
    };
    let broadcaster_user_login = match get_str_field(
        e,
        &String::from_str("broadcaster_user_login"),
    ) {
        Some(s) => s,
        None => return None,
    };
    let broadcaster_user_name = match get_str_field(e, &String::from_str("broadcaster_user_name")) {
        Some(s) => s,
        None => return None,
    };
    let title = match get_str_field(e, &String::from_str("title")) {
        Some(s) => s,
        None => return None,
    };
    let language = match get_str_field(e, &String::from_str("language")) {
        Some(s) => s,
        None => return None,
    };
    let category_id = match get_str_field(e, &String::from_str("category_id")) {
        Some(s) => s,
        None => return None,
    };
    let category_name = match get_str_field(e, &String::from_str("category_name")) {
        Some(s) => s,
        None => return None,
    };
    let content_classification_labels = match get_str_array_field(
        e,
        &String::from_str("content_classification_labels"),
    ) {
        Some(v) => v,
        None => return None,
    };
    Some(
        ChannelUpdate {
            broadcaster_user_id,
            broadcaster_user_login,
            broadcaster_user_name,
            title,
            language,
            category_id,
            category_name,
            content_classification_labels,
        },
    )
}

/// Decode a redemption event body.
pub fn decode_redemption_add(e: &Json) -> (r: Option<CustomRewardRedemptionAdd>)
    ensures
        r == spec_redemption_add(*e),
{
    let id = match get_str_field(e, &String::from_str("id")) {
        Some(s) => s,
        None => return None,
    };
    let user_login = match get_str_field(e, &String::from_str("user_login")) {
        Some(s) => s,
        None => return None,
    };
    let user_input = match get_str_field(e, &String::from_str("user_input")) {
        Some(s) => s,
        None => return None,
    };
    let reward_doc = match get_field(e, &String::from_str("reward")) {
        Some(d) => d,
        None => return None,
    };
    let reward_id = match get_str_field(reward_doc, &String::from_str("id")) {
        Some(s) => s,
        None => return None,
    };
    Some(
        CustomRewardRedemptionAdd {
            id,
            user_login,
            user_input,
            reward: CustomRewardRedemptionAddReward { id: reward_id },
        },
    )
}

/// Decode a stream-online event body.
pub fn decode_stream_online(e: &Json) -> (r: Option<StreamOnline>)
    ensures
        r == spec_stream_online(*e),
{
    let id = match get_str_field(e, &String::from_str("id")) {
        Some(s) => s,
        None => return None,
    };
    let broadcaster_user_id = match get_str_field(e, &String::from_str("broadcaster_user_id")) {
        Some(s) => s,
        None => return None,
    };
    let broadcaster_user_login = match get_str_field(
        e,
        &String::from_str("broadcaster_user_login"),
    ) {
        Some(s) => s,
        None => return None,
    };
    let broadcaster_user_name = match get_str_field(e, &String::from_str("broadcaster_user_name")) {
        Some(s) => s,
        None => return None,
    };
    let stream_type = match get_str_field(e, &String::from_str("type")) {
        Some(s) => s,
        None => return None,
    };
    let started_at = match get_str_field(e, &String::from_str("started_at")) {
        Some(s) => s,
        None => return None,
    };
    Some(
        StreamOnline {
            id,
            broadcaster_user_id,
            broadcaster_user_login,
            broadcaster_user_name,
            stream_type,
            started_at,
        },
    )
}

/// Decode a stream-offline event body.
pub fn decode_stream_offline(e: &Json) -> (r: Option<StreamOffline>)
    ensures
        r == spec_stream_offline(*e),
{
    let broadcaster_user_id = match get_str_field(e, &String::from_str("broadcaster_user_id")) {
        Some(s) => s,
        None => return None,
    };
    let broadcaster_user_login = match get_str_field(
        e,
        &String::from_str("broadcaster_user_login"),
    ) {
        Some(s) => s,
        None => return None,
    };
    let broadcaster_user_name = match get_str_field(e, &String::from_str("broadcaster_user_name")) {
        Some(s) => s,
        None => return None,
    };
    Some(
        StreamOffline {
            broadcaster_user_id,
            broadcaster_user_login,
            broadcaster_user_name,
        },
    )
}

/// Whether the subscription type selects one of the typed variants.
pub open spec fn spec_known_subtype(st: Seq<char>) -> bool {
    ||| st == "channel.update"@
    ||| st == "channel.channel_points_custom_reward_redemption.add"@
    ||| st == "channel.follow"@
    ||| st == "stream.online"@
    ||| st == "stream.offline"@
}

/// Whether the event body decodes under the given recognized subscription
/// type.
pub open spec fn spec_event_ok(st: Seq<char>, e: Json) -> bool {
    if st == "channel.update"@ {
        spec_channel_update_ok(e)
    } else if st == "channel.channel_points_custom_reward_redemption.add"@ {
        spec_redemption_add(e) is Some
    } else if st == "channel.follow"@ {
        spec_channel_follow(e) is Some
    } else if st == "stream.online"@ {
        spec_stream_online(e) is Some
    } else if st == "stream.offline"@ {
        spec_stream_offline(e) is Some
    } else {
        true
    }
}

/// What the stream does with a decoded message, up to the delivered event:
/// non-notifications are skipped; a notification needs a subscription type
/// and a payload with `subscription` and `event` fields; a recognized
/// subscription type also needs an event body of the matching shape; any
/// other subscription type is delivered through the catch-all variant.
pub open spec fn spec_classify_kind(msg: Message) -> DispositionKind {
    if msg.metadata.message_type@ != "notification"@ {
        DispositionKind::Skip
    } else {
        match msg.metadata.subscription_type {
            None => DispositionKind::Fail(DecodeFailure::MissingSubtype),
            Some(st) => {
                if spec_parse_notification(msg.payload) is None {
                    DispositionKind::Fail(DecodeFailure::InvalidNotification)
                } else {
                    match spec_field(msg.payload, "event"@) {
                        Some(ev) => if spec_event_ok(st@, ev) {
                            DispositionKind::Deliver
                        } else {
                            DispositionKind::Fail(DecodeFailure::InvalidEvent)
                        },
                        None => DispositionKind::Fail(DecodeFailure::InvalidNotification),
                    }
                }
            },
        }
    }
}

/// Whether `nt` is exactly the event a delivered message decodes to: the
/// typed variant selected by the subscription type, or the catch-all variant
/// carrying the unmodified payload.
pub open spec fn spec_delivered_event(msg: Message, nt: NotificationType) -> bool {
    match msg.metadata.subscription_type {
        None => false,
        Some(st) => {
            let ev = spec_field(msg.payload, "event"@);
            if st@ == "channel.update"@ {
                match (nt, ev) {
                    (NotificationType::ChannelUpdate(cu), Some(e)) => spec_channel_update_matches(
                        e,
                        cu,
                    ),
                    _ => false,
                }
            } else if st@ == "channel.channel_points_custom_reward_redemption.add"@ {
                match (nt, ev) {
                    (NotificationType::CustomRewardRedemptionAdd(x), Some(e)) => Some(x)
                        == spec_redemption_add(e),
                    _ => false,
                }
            } else if st@ == "channel.follow"@ {
                match (nt, ev) {
                    (NotificationType::ChannelFollow(x), Some(e)) => Some(x) == spec_channel_follow(
                        e,
                    ),
                    _ => false,
                }
            } else if st@ == "stream.online"@ {
                match (nt, ev) {
                    (NotificationType::StreamOnline(x), Some(e)) => Some(x) == spec_stream_online(
                        e,
                    ),
                    _ => false,
                }
            } else if st@ == "stream.offline"@ {
                match (nt, ev) {
                    (NotificationType::StreamOffline(x), Some(e)) => Some(x) == spec_stream_offline(
                        e,
                    ),
                    _ => false,
                }
            } else {
                nt == NotificationType::Other(msg.payload)
            }
        },
    }
}

/// The five recognized subscription types are pairwise distinct strings.
proof fn lemma_subtype_literals_distinct()
    ensures
        "channel.update"@ != "channel.channel_points_custom_reward_redemption.add"@,
        "channel.update"@ != "channel.follow"@,
        "channel.update"@ != "stream.online"@,
        "channel.update"@ != "stream.offline"@,
        "channel.channel_points_custom_reward_redemption.add"@ != "channel.follow"@,
        "channel.channel_points_custom_reward_redemption.add"@ != "stream.online"@,
        "channel.channel_points_custom_reward_redemption.add"@ != "stream.offline"@,
        "channel.follow"@ != "stream.online"@,
        "channel.follow"@ != "stream.offline"@,
        "stream.online"@ != "stream.offline"@,
{
    reveal_strlit("channel.update");
    reveal_strlit("channel.channel_points_custom_reward_redemption.add");
    reveal_strlit("channel.follow");
    reveal_strlit("stream.online");
    reveal_strlit("stream.offline");
    assert("channel.update"@.len() == 14);
    assert("channel.channel_points_custom_reward_redemption.add"@.len() == 51);
    assert("channel.follow"@.len() == 14);
    assert("stream.online"@.len() == 13);
    assert("stream.offline"@.len() == 14);
    assert("channel.update"@[8] == 'u');
    assert("channel.follow"@[8] == 'f');
    assert("channel.update"@[0] == 'c');
    assert("channel.follow"@[0] == 'c');
    assert("stream.offline"@[0] == 's');
}

/// A delivered event's variant always matches the message's subscription
/// type: each recognized subscription type yields its own typed variant.
pub proof fn lemma_delivered_variant_matches_subtype(msg: Message, nt: NotificationType)
    requires
        spec_delivered_event(msg, nt),
    ensures
        match msg.metadata.subscription_type {
            Some(st) => {
                &&& (st@ == "channel.update"@ ==> nt is ChannelUpdate)
                &&& (st@ == "channel.channel_points_custom_reward_redemption.add"@
                    ==> nt is CustomRewardRedemptionAdd)
                &&& (st@ == "channel.follow"@ ==> nt is ChannelFollow)
                &&& (st@ == "stream.online"@ ==> nt is StreamOnline)
                &&& (st@ == "stream.offline"@ ==> nt is StreamOffline)
            },
            None => false,
        },
{
    lemma_subtype_literals_distinct();
}

/// A notification with an unrecognized subscription type is delivered as
/// the catch-all variant, carrying the message's payload unmodified.
pub proof fn lemma_unrecognized_subtype_yields_catch_all(msg: Message, nt: NotificationType)
    requires
        spec_delivered_event(msg, nt),
        match msg.metadata.subscription_type {
            Some(st) => !spec_known_subtype(st@),
            None => false,
        },
    ensures
        nt == NotificationType::Other(msg.payload),
{
}

/// Classify one decoded message: skip it, deliver its event, or fail.
pub fn classify(msg: Message) -> (r: Disposition)
    ensures
        match r {
            Disposition::Skip => spec_classify_kind(msg) == DispositionKind::Skip,
            Disposition::Deliver(nt) => spec_classify_kind(msg) == DispositionKind::Deliver
                && spec_delivered_event(msg, nt),
            Disposition::Fail(f) => spec_classify_kind(msg) == DispositionKind::Fail(f),
        },
{
    if msg.metadata.message_type != String::from_str("notification") {
        return Disposition::Skip;
    }
    let st = match &msg.metadata.subscription_type {
        Some(st) => st,
        None => return Disposition::Fail(DecodeFailure::MissingSubtype),
    };
    let has_subscription = has_field(&msg.payload, &String::from_str("subscription"));
    let has_event = has_field(&msg.payload, &String::from_str("event"));
    if !(has_subscription && has_event) {
        return Disposition::Fail(DecodeFailure::InvalidNotification);
    }
    let ev = match get_field(&msg.payload, &String::from_str("event")) {
        Some(ev) => ev,
        None => return Disposition::Fail(DecodeFailure::InvalidNotification),
    };
    if *st == String::from_str("channel.update") {
        match decode_channel_update(ev) {
            Some(e) => Disposition::Deliver(NotificationType::ChannelUpdate(e)),
            None => Disposition::Fail(DecodeFailure::InvalidEvent),
        }
    } else if *st == String::from_str("channel.channel_points_custom_reward_redemption.add") {
        match decode_redemption_add(ev) {
            Some(e) => Disposition::Deliver(NotificationType::CustomRewardRedemptionAdd(e)),
            None => Disposition::Fail(DecodeFailure::InvalidEvent),
        }
    } else if *st == String::from_str("channel.follow") {
        match decode_channel_follow(ev) {
            Some(e) => Disposition::Deliver(NotificationType::ChannelFollow(e)),
            None => Disposition::Fail(DecodeFailure::InvalidEvent),
        }
    } else if *st == String::from_str("stream.online") {
        match decode_stream_online(ev) {
            Some(e) => Disposition::Deliver(NotificationType::StreamOnline(e)),
            None => Disposition::Fail(DecodeFailure::InvalidEvent),
        }
    } else if *st == String::from_str("stream.offline") {
        match decode_stream_offline(ev) {
            Some(e) => Disposition::Deliver(NotificationType::StreamOffline(e)),
            None => Disposition::Fail(DecodeFailure::InvalidEvent),
        }
    } else {
        Disposition::Deliver(NotificationType::Other(msg.payload))
    }
}

} // verus!
