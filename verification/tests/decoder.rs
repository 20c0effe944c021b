use eventsub_client::envelope::{parse_message, parse_metadata, parse_notification};
use eventsub_client::events::{
    classify, decode_channel_follow, decode_channel_update, decode_redemption_add,
    decode_stream_offline, decode_stream_online, DecodeFailure, Disposition, NotificationType,
};
use eventsub_client::json::{get_field, get_i64_field, get_str_field, parse_json, Json};

fn s(x: &str) -> String {
    x.to_string()
}

fn obj(entries: Vec<(&str, Json)>) -> Json {
    Json::Obj(entries.into_iter().map(|(k, v)| (s(k), v)).collect())
}

#[test]
fn parse_json_scalars() {
    assert_eq!(parse_json("null"), Some(Json::Null));
    assert_eq!(parse_json("true"), Some(Json::Bool(true)));
    assert_eq!(parse_json("-5"), Some(Json::Int(-5)));
    assert_eq!(parse_json("\"hi\""), Some(Json::Str(s("hi"))));
    assert_eq!(parse_json("18446744073709551615"), Some(Json::UInt(u64::MAX)));
    assert_eq!(parse_json("not json"), None);
    assert_eq!(parse_json(""), None);
}

#[test]
fn parse_json_structures() {
    assert_eq!(
        parse_json("[1, \"a\", null]"),
        Some(Json::Arr(vec![Json::Int(1), Json::Str(s("a")), Json::Null]))
    );
    assert_eq!(
        parse_json("{\"a\": 1, \"b\": [true]}"),
        Some(obj(vec![("a", Json::Int(1)), ("b", Json::Arr(vec![Json::Bool(true)]))]))
    );
}

#[test]
fn object_lookup_takes_first_match() {
    let j = obj(vec![("k", Json::Int(1)), ("k", Json::Int(2))]);
    assert_eq!(get_field(&j, &s("k")), Some(&Json::Int(1)));
    assert_eq!(get_field(&j, &s("missing")), None);
    assert_eq!(get_field(&Json::Null, &s("k")), None);
}

#[test]
fn integer_field_accepts_fitting_unsigned() {
    let j = obj(vec![("a", Json::Int(-7)), ("b", Json::UInt(12)), ("c", Json::UInt(u64::MAX))]);
    assert_eq!(get_i64_field(&j, &s("a")), Some(-7));
    assert_eq!(get_i64_field(&j, &s("b")), Some(12));
    assert_eq!(get_i64_field(&j, &s("c")), None);
}

#[test]
fn string_field_requires_a_string() {
    let j = obj(vec![("a", Json::Str(s("x"))), ("b", Json::Int(3))]);
    assert_eq!(get_str_field(&j, &s("a")), Some(s("x")));
    assert_eq!(get_str_field(&j, &s("b")), None);
    assert_eq!(get_str_field(&j, &s("c")), None);
}

fn metadata_doc(message_type: &str, subtype: Option<&str>) -> Json {
    let mut entries = vec![
        (s("message_id"), Json::Str(s("m1"))),
        (s("message_timestamp"), Json::Str(s("2024-01-01T00:00:00Z"))),
        (s("message_type"), Json::Str(s(message_type))),
    ];
    if let Some(st) = subtype {
        entries.push((s("subscription_type"), Json::Str(s(st))));
        entries.push((s("subscription_version"), Json::Str(s("1"))));
    }
    Json::Obj(entries)
}

#[test]
fn metadata_decodes_with_and_without_subscription_fields() {
    let m = parse_metadata(&metadata_doc("notification", Some("stream.online"))).unwrap();
    assert_eq!(m.message_id, "m1");
    assert_eq!(m.message_type, "notification");
    assert_eq!(m.subscription_type, Some(s("stream.online")));
    assert_eq!(m.subscription_version, Some(s("1")));

    let m = parse_metadata(&metadata_doc("session_keepalive", None)).unwrap();
    assert_eq!(m.subscription_type, None);
    assert_eq!(m.subscription_version, None);

    // A null optional field decodes like an absent one.
    let doc = obj(vec![
        ("message_id", Json::Str(s("m"))),
        ("message_timestamp", Json::Str(s("t"))),
        ("message_type", Json::Str(s("n"))),
        ("subscription_type", Json::Null),
    ]);
    assert_eq!(parse_metadata(&doc).unwrap().subscription_type, None);

    // A missing required field is a decode failure.
    let doc = obj(vec![("message_id", Json::Str(s("m")))]);
    assert_eq!(parse_metadata(&doc), None);

    // A wrongly typed optional field is a decode failure.
    let doc = obj(vec![
        ("message_id", Json::Str(s("m"))),
        ("message_timestamp", Json::Str(s("t"))),
        ("message_type", Json::Str(s("n"))),
        ("subscription_type", Json::Int(3)),
    ]);
    assert_eq!(parse_metadata(&doc), None);
}

#[test]
fn message_needs_metadata_and_payload() {
    let doc = obj(vec![
        ("metadata", metadata_doc("notification", None)),
        ("payload", Json::Int(7)),
    ]);
    let m = parse_message(doc).unwrap();
    assert_eq!(m.metadata.message_type, "notification");
    assert_eq!(m.payload, Json::Int(7));

    let doc = obj(vec![("metadata", metadata_doc("notification", None))]);
    assert_eq!(parse_message(doc), None);
    let doc = obj(vec![("payload", Json::Int(7))]);
    assert_eq!(parse_message(doc), None);
    assert_eq!(parse_message(Json::Str(s("x"))), None);
}

#[test]
fn notification_needs_subscription_and_event() {
    let doc = obj(vec![("subscription", Json::Int(1)), ("event", Json::Int(2))]);
    let n = parse_notification(doc).unwrap();
    assert_eq!(n.subscription, Json::Int(1));
    assert_eq!(n.event, Json::Int(2));

    // Field order does not matter.
    let doc = obj(vec![("event", Json::Int(2)), ("subscription", Json::Int(1))]);
    let n = parse_notification(doc).unwrap();
    assert_eq!(n.subscription, Json::Int(1));
    assert_eq!(n.event, Json::Int(2));

    assert_eq!(parse_notification(obj(vec![("event", Json::Int(2))])), None);
    assert_eq!(parse_notification(obj(vec![("subscription", Json::Int(1))])), None);
}

fn follow_event() -> Json {
    obj(vec![
        ("user_id", Json::Str(s("10"))),
        ("user_login", Json::Str(s("viewer"))),
        ("user_name", Json::Str(s("Viewer"))),
        ("broadcaster_user_id", Json::Str(s("1"))),
        ("broadcaster_user_login", Json::Str(s("streamer"))),
        ("broadcaster_user_name", Json::Str(s("Streamer"))),
        ("followed_at", Json::Str(s("2024-01-01T00:00:00Z"))),
    ])
}

#[test]
fn channel_follow_decodes() {
    let e = decode_channel_follow(&follow_event()).unwrap();
    assert_eq!(e.user_id, "10");
    assert_eq!(e.user_login, "viewer");
    assert_eq!(e.broadcaster_user_name, "Streamer");
    assert_eq!(e.followed_at, "2024-01-01T00:00:00Z");
    assert_eq!(decode_channel_follow(&obj(vec![])), None);
}

fn update_event() -> Json {
    obj(vec![
        ("broadcaster_user_id", Json::Str(s("1"))),
        ("broadcaster_user_login", Json::Str(s("streamer"))),
        ("broadcaster_user_name", Json::Str(s("Streamer"))),
        ("title", Json::Str(s("new title"))),
        ("language", Json::Str(s("en"))),
        ("category_id", Json::Str(s("509658"))),
        ("category_name", Json::Str(s("Just Chatting"))),
        (
            "content_classification_labels",
            Json::Arr(vec![Json::Str(s("Gambling")), Json::Str(s("MatureGame"))]),
        ),
    ])
}

#[test]
fn channel_update_decodes() {
    let e = decode_channel_update(&update_event()).unwrap();
    assert_eq!(e.title, "new title");
    assert_eq!(e.category_name, "Just Chatting");
    assert_eq!(e.content_classification_labels, vec![s("Gambling"), s("MatureGame")]);
}

#[test]
fn channel_update_rejects_bad_labels() {
    // An array holding a non-string is a decode failure.
    let e = obj(vec![
        ("broadcaster_user_id", Json::Str(s("1"))),
        ("broadcaster_user_login", Json::Str(s("streamer"))),
        ("broadcaster_user_name", Json::Str(s("Streamer"))),
        ("title", Json::Str(s("t"))),
        ("language", Json::Str(s("en"))),
        ("category_id", Json::Str(s("1"))),
        ("category_name", Json::Str(s("c"))),
        ("content_classification_labels", Json::Arr(vec![Json::Int(1)])),
    ]);
    assert_eq!(decode_channel_update(&e), None);
    // A non-array is a decode failure too.
    let e = obj(vec![
        ("broadcaster_user_id", Json::Str(s("1"))),
        ("broadcaster_user_login", Json::Str(s("streamer"))),
        ("broadcaster_user_name", Json::Str(s("Streamer"))),
        ("title", Json::Str(s("t"))),
        ("language", Json::Str(s("en"))),
        ("category_id", Json::Str(s("1"))),
        ("category_name", Json::Str(s("c"))),
        ("content_classification_labels", Json::Str(s("none"))),
    ]);
    assert_eq!(decode_channel_update(&e), None);
}

#[test]
fn redemption_decodes_with_nested_reward() {
    let e = obj(vec![
        ("id", Json::Str(s("r1"))),
        ("user_login", Json::Str(s("viewer"))),
        ("user_input", Json::Str(s("hello"))),
        ("reward", obj(vec![("id", Json::Str(s("reward-9")))])),
    ]);
    let d = decode_redemption_add(&e).unwrap();
    assert_eq!(d.id, "r1");
    assert_eq!(d.reward.id, "reward-9");

    let e = obj(vec![
        ("id", Json::Str(s("r1"))),
        ("user_login", Json::Str(s("viewer"))),
        ("user_input", Json::Str(s("hello"))),
        ("reward", obj(vec![])),
    ]);
    assert_eq!(decode_redemption_add(&e), None);
}

fn online_event() -> Json {
    obj(vec![
        ("id", Json::Str(s("42"))),
        ("broadcaster_user_id", Json::Str(s("1"))),
        ("broadcaster_user_login", Json::Str(s("streamer"))),
        ("broadcaster_user_name", Json::Str(s("Streamer"))),
        ("type", Json::Str(s("live"))),
        ("started_at", Json::Str(s("2024-01-01T00:00:00Z"))),
    ])
}

#[test]
fn stream_online_and_offline_decode() {
    let e = decode_stream_online(&online_event()).unwrap();
    assert_eq!(e.id, "42");
    assert_eq!(e.stream_type, "live");

    let off = obj(vec![
        ("broadcaster_user_id", Json::Str(s("1"))),
        ("broadcaster_user_login", Json::Str(s("streamer"))),
        ("broadcaster_user_name", Json::Str(s("Streamer"))),
    ]);
    let e = decode_stream_offline(&off).unwrap();
    assert_eq!(e.broadcaster_user_id, "1");
    assert_eq!(decode_stream_offline(&obj(vec![])), None);
}

fn notification_message(subtype: &str, event: Json) -> eventsub_client::envelope::Message {
    let payload = obj(vec![("subscription", obj(vec![])), ("event", event)]);
    let doc = obj(vec![
        ("metadata", metadata_doc("notification", Some(subtype))),
        ("payload", payload),
    ]);
    parse_message(doc).unwrap()
}

#[test]
fn classify_skips_non_notifications() {
    let doc = obj(vec![
        ("metadata", metadata_doc("session_keepalive", None)),
        ("payload", obj(vec![])),
    ]);
    let msg = parse_message(doc).unwrap();
    assert_eq!(classify(msg), Disposition::Skip);
}

#[test]
fn classify_fails_on_missing_subtype() {
    let doc = obj(vec![
        ("metadata", metadata_doc("notification", None)),
        ("payload", obj(vec![("subscription", obj(vec![])), ("event", obj(vec![]))])),
    ]);
    let msg = parse_message(doc).unwrap();
    assert_eq!(classify(msg), Disposition::Fail(DecodeFailure::MissingSubtype));
}

#[test]
fn classify_fails_on_bad_notification_shape() {
    // Even an unrecognized subtype needs the notification's two fields.
    let doc = obj(vec![
        ("metadata", metadata_doc("notification", Some("something.new"))),
        ("payload", obj(vec![("event", obj(vec![]))])),
    ]);
    let msg = parse_message(doc).unwrap();
    assert_eq!(classify(msg), Disposition::Fail(DecodeFailure::InvalidNotification));
}

#[test]
fn classify_fails_on_bad_event_body() {
    let msg = notification_message("stream.online", obj(vec![]));
    assert_eq!(classify(msg), Disposition::Fail(DecodeFailure::InvalidEvent));
}

#[test]
fn classify_delivers_each_known_subtype() {
    let msg = notification_message("channel.update", update_event());
    match classify(msg) {
        Disposition::Deliver(NotificationType::ChannelUpdate(e)) => {
            assert_eq!(e.title, "new title");
        }
        other => panic!("expected a channel update, got {:?}", other),
    }

    let msg = notification_message("channel.follow", follow_event());
    match classify(msg) {
        Disposition::Deliver(NotificationType::ChannelFollow(e)) => {
            assert_eq!(e.user_login, "viewer");
        }
        other => panic!("expected a follow, got {:?}", other),
    }

    let msg = notification_message("stream.online", online_event());
    match classify(msg) {
        Disposition::Deliver(NotificationType::StreamOnline(e)) => {
            assert_eq!(e.id, "42");
        }
        other => panic!("expected stream online, got {:?}", other),
    }

    let msg = notification_message(
        "stream.offline",
        obj(vec![
            ("broadcaster_user_id", Json::Str(s("1"))),
            ("broadcaster_user_login", Json::Str(s("streamer"))),
            ("broadcaster_user_name", Json::Str(s("Streamer"))),
        ]),
    );
    match classify(msg) {
        Disposition::Deliver(NotificationType::StreamOffline(e)) => {
            assert_eq!(e.broadcaster_user_id, "1");
        }
        other => panic!("expected stream offline, got {:?}", other),
    }

    let msg = notification_message(
        "channel.channel_points_custom_reward_redemption.add",
        obj(vec![
            ("id", Json::Str(s("r1"))),
            ("user_login", Json::Str(s("viewer"))),
            ("user_input", Json::Str(s("hi"))),
            ("reward", obj(vec![("id", Json::Str(s("reward-9")))])),
        ]),
    );
    match classify(msg) {
        Disposition::Deliver(NotificationType::CustomRewardRedemptionAdd(e)) => {
            assert_eq!(e.reward.id, "reward-9");
        }
        other => panic!("expected a redemption, got {:?}", other),
    }
}

#[test]
fn classify_unknown_subtype_yields_whole_payload() {
    let event = obj(vec![("anything", Json::Bool(true))]);
    let payload = obj(vec![("subscription", obj(vec![])), ("event", event)]);
    let expected = obj(vec![
        ("subscription", obj(vec![])),
        ("event", obj(vec![("anything", Json::Bool(true))])),
    ]);
    let doc = obj(vec![
        ("metadata", metadata_doc("notification", Some("channel.something_else"))),
        ("payload", payload),
    ]);
    let msg = parse_message(doc).unwrap();
    assert_eq!(classify(msg), Disposition::Deliver(NotificationType::Other(expected)));
}

#[test]
fn round_trip_through_text() {
    // Encode a known payload as text, decode, and check variant and fields.
    let text = "{\"metadata\":{\"message_id\":\"m1\",\"message_timestamp\":\"t\",\
                 \"message_type\":\"notification\",\"subscription_type\":\"stream.online\",\
                 \"subscription_version\":\"1\"},\
                 \"payload\":{\"subscription\":{},\"event\":{\
                 \"id\":\"42\",\"broadcaster_user_id\":\"1\",\
                 \"broadcaster_user_login\":\"streamer\",\
                 \"broadcaster_user_name\":\"Streamer\",\
                 \"type\":\"live\",\"started_at\":\"2024-01-01T00:00:00Z\"}}}";
    let msg = parse_message(parse_json(text).unwrap()).unwrap();
    assert_eq!(msg.metadata.subscription_type, Some(s("stream.online")));
    match classify(msg) {
        Disposition::Deliver(NotificationType::StreamOnline(e)) => {
            assert_eq!(e.id, "42");
            assert_eq!(e.broadcaster_user_id, "1");
            assert_eq!(e.stream_type, "live");
            assert_eq!(e.started_at, "2024-01-01T00:00:00Z");
        }
        other => panic!("expected stream online, got {:?}", other),
    }
}
