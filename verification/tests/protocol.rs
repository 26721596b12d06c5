use link::json::{JsonNumber, JsonValue};
use link::protocol::events::ProtocolEvent;
use link::protocol::message::{heartbeat, Channel, Message, RefCounter};
use link::protocol::status::{progress_payload, ProgressStage, UpdateStatus};

fn text_at<'a>(v: &'a JsonValue, key: &str) -> Option<&'a str> {
    v.get(key).and_then(|x| x.as_str()).map(|s| s.as_str())
}

#[test]
fn maps_known_events() {
    assert_eq!(
        "status_update".parse::<ProtocolEvent>(),
        Ok(ProtocolEvent::StatusUpdate)
    );
    assert_eq!(
        "scripts/run".parse::<ProtocolEvent>(),
        Ok(ProtocolEvent::ScriptsRun)
    );
    assert_eq!(ProtocolEvent::FwupProgress.as_str(), "fwup_progress");
    assert!("custom".parse::<ProtocolEvent>().is_err());
}

#[test]
fn status_payloads_match_wire_protocol() {
    assert_eq!(text_at(&UpdateStatus::Received.payload(), "status"), Some("received"));
    assert_eq!(
        text_at(
            &UpdateStatus::Failed {
                reason: "nope".to_string()
            }
            .payload(),
            "reason"
        ),
        Some("nope")
    );
    assert_eq!(
        UpdateStatus::Rescheduled {
            delay_for: 10,
            reason: None
        }
        .payload()
        .get("delay_for")
        .and_then(|v| v.as_u64()),
        Some(10)
    );
}

#[test]
fn progress_payload_clamps_percent() {
    let payload = progress_payload(ProgressStage::Downloading, 200);

    assert_eq!(text_at(&payload, "stage"), Some("downloading"));
    assert_eq!(payload.get("value").and_then(|v| v.as_u64()), Some(100));
}

#[test]
fn every_event_name_parses_back_to_its_event() {
    let events = [
        ProtocolEvent::PhxJoin,
        ProtocolEvent::PhxReply,
        ProtocolEvent::PhxError,
        ProtocolEvent::PhxClose,
        ProtocolEvent::Heartbeat,
        ProtocolEvent::ExtensionsGet,
        ProtocolEvent::Update,
        ProtocolEvent::Reboot,
        ProtocolEvent::Identify,
        ProtocolEvent::ScriptsRun,
        ProtocolEvent::Rebooting,
        ProtocolEvent::StatusUpdate,
        ProtocolEvent::FwupProgress,
    ];
    for event in events {
        assert_eq!(event.as_str().parse::<ProtocolEvent>(), Ok(event));
    }
}

#[test]
fn started_status_names_the_download_interface() {
    let payload = UpdateStatus::Started {
        downloader_network_interface: Some("eth0".to_string()),
    }
    .payload();
    assert_eq!(text_at(&payload, "status"), Some("started"));
    assert_eq!(text_at(&payload, "downloader_network_interface"), Some("eth0"));
}

#[test]
fn message_frame_round_trips() {
    let msg = Message {
        join_ref: Some("1".to_string()),
        msg_ref: None,
        topic: "device".to_string(),
        event: "update".to_string(),
        payload: JsonValue::Object(vec![(
            "size".to_string(),
            JsonValue::Number(JsonNumber::Unsigned(12)),
        )]),
    };
    let frame = msg.to_frame();
    match &frame {
        JsonValue::Array(items) => {
            assert_eq!(items.len(), 5);
            assert!(matches!(&items[1], JsonValue::Null));
        }
        _ => panic!("frame is not an array"),
    }
    let back = Message::from_frame(&frame).unwrap();
    assert_eq!(back.join_ref.as_deref(), Some("1"));
    assert_eq!(back.msg_ref, None);
    assert_eq!(back.topic, "device");
    assert_eq!(back.event, "update");
    assert_eq!(back.payload.get("size").and_then(|v| v.as_u64()), Some(12));
}

#[test]
fn malformed_frames_are_rejected() {
    let short = JsonValue::Array(vec![JsonValue::Null, JsonValue::Null]);
    assert!(Message::from_frame(&short).is_none());
    let bad_topic = JsonValue::Array(vec![
        JsonValue::Null,
        JsonValue::Null,
        JsonValue::Bool(true),
        JsonValue::Str("update".to_string()),
        JsonValue::Null,
    ]);
    assert!(Message::from_frame(&bad_topic).is_none());
    assert!(Message::from_frame(&JsonValue::Str("x".to_string())).is_none());
}

#[test]
fn join_reply_status_and_rejection_reason() {
    let reply = Message {
        join_ref: Some("1".to_string()),
        msg_ref: Some("1".to_string()),
        topic: "device".to_string(),
        event: "phx_reply".to_string(),
        payload: JsonValue::Object(vec![
            ("status".to_string(), JsonValue::Str("error".to_string())),
            (
                "response".to_string(),
                JsonValue::Object(vec![(
                    "reason".to_string(),
                    JsonValue::Str("unauthorized".to_string()),
                )]),
            ),
        ]),
    };
    assert!(reply.is_reply());
    assert!(!reply.reply_ok());
    assert_eq!(reply.reply_status().as_deref(), Some("error"));
    assert_eq!(reply.rejection_reason(), "unauthorized");
    assert!(reply.answers("1"));
    assert!(!reply.answers("2"));

    let bare = Message {
        join_ref: None,
        msg_ref: None,
        topic: "device".to_string(),
        event: "phx_reply".to_string(),
        payload: JsonValue::Object(Vec::new()),
    };
    assert_eq!(bare.rejection_reason(), "unknown");
}

#[test]
fn channel_join_and_push_use_fresh_references() {
    let mut refs = RefCounter::new();
    let (channel, join) = Channel::join("device", JsonValue::Object(Vec::new()), &mut refs);
    assert_eq!(channel.topic, "device");
    assert_eq!(channel.join_ref, "1");
    assert_eq!(join.join_ref.as_deref(), Some("1"));
    assert_eq!(join.msg_ref.as_deref(), Some("1"));
    assert_eq!(join.event, "phx_join");

    let push = channel.push("rebooting", JsonValue::Object(Vec::new()), &mut refs);
    assert_eq!(push.join_ref.as_deref(), Some("1"));
    assert_eq!(push.msg_ref.as_deref(), Some("2"));
    assert_eq!(push.topic, "device");

    let beat = heartbeat(&mut refs);
    assert_eq!(beat.join_ref, None);
    assert_eq!(beat.msg_ref.as_deref(), Some("3"));
    assert_eq!(beat.topic, "phoenix");
    assert_eq!(beat.event, "heartbeat");
    assert!(refs.can_issue());
}
