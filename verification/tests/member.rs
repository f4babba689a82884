use ruma_rtc::application::CallApplication;
use ruma_rtc::member::{DisconnectClass, DisconnectReason, RtcMember, RtcMemberEventContent};
use ruma_rtc::transport::RtcTransport;
use serde_json::Value;

fn json(text: &str) -> Value {
    serde_json::from_str(text).unwrap()
}

#[test]
fn connecting_member_event_serialization() {
    let transport = RtcTransport::new(
        "livekit",
        json(r#"{ "livekit_service_url": "https://livekit.example.com/jwt" }"#)
            .as_object()
            .unwrap()
            .clone(),
    );
    let content = RtcMemberEventContent::new(
        "m.call#ROOM".to_owned(),
        CallApplication::new("UUID".to_owned()).into(),
        RtcMember::new(
            "xyzABCDEF0123".to_owned(),
            "DEVICEID".to_owned(),
            "@user:matrix.domain".to_owned(),
        ),
        vec![transport],
        vec!["v0".to_owned()],
    );

    assert_eq!(
        Value::Object(content.to_json_object()),
        json(
            r#"{
                "slot_id": "m.call#ROOM",
                "sticky_key": "xyzABCDEF0123",
                "application": {
                    "type": "m.call",
                    "m.call.id": "UUID"
                },
                "member": {
                    "id": "xyzABCDEF0123",
                    "claimed_device_id": "DEVICEID",
                    "claimed_user_id": "@user:matrix.domain"
                },
                "rtc_transports": [
                    {
                        "type": "livekit",
                        "livekit_service_url": "https://livekit.example.com/jwt"
                    }
                ],
                "versions": ["v0"]
            }"#
        )
    );
}

#[test]
fn connecting_member_event_custom_transport_serialization() {
    let transport = RtcTransport::new(
        "org.example.transport",
        json(r#"{ "url": "https://sfu.example.com" }"#).as_object().unwrap().clone(),
    );
    let content = RtcMemberEventContent::new(
        "m.call#ROOM".to_owned(),
        CallApplication::new("UUID".to_owned()).into(),
        RtcMember::new(
            "xyzABCDEF0123".to_owned(),
            "DEVICEID".to_owned(),
            "@user:matrix.domain".to_owned(),
        ),
        vec![transport],
        vec!["v0".to_owned()],
    );

    assert_eq!(
        Value::Object(content.to_json_object()),
        json(
            r#"{
                "slot_id": "m.call#ROOM",
                "sticky_key": "xyzABCDEF0123",
                "application": {
                    "type": "m.call",
                    "m.call.id": "UUID"
                },
                "member": {
                    "id": "xyzABCDEF0123",
                    "claimed_device_id": "DEVICEID",
                    "claimed_user_id": "@user:matrix.domain"
                },
                "rtc_transports": [
                    {
                        "type": "org.example.transport",
                        "url": "https://sfu.example.com"
                    }
                ],
                "versions": ["v0"]
            }"#
        )
    );
}

#[test]
fn disconnecting_member_event_serialization() {
    let mut reason = DisconnectReason::new(DisconnectClass::ServerError, "ice_failed".to_owned());
    reason.description = Some("Failed to establish peer-to-peer connection via ICE".to_owned());
    let content = RtcMemberEventContent::disconnected(
        "m.call#ROOM".to_owned(),
        "xyzABCDEF0123".to_owned(),
        reason,
    );

    assert_eq!(
        Value::Object(content.to_json_object()),
        json(
            r#"{
                "slot_id": "m.call#ROOM",
                "sticky_key": "xyzABCDEF0123",
                "disconnect_reason": {
                    "class": "server_error",
                    "reason": "ice_failed",
                    "description": "Failed to establish peer-to-peer connection via ICE"
                }
            }"#
        )
    );
}

#[test]
fn connecting_member_event_deserialization() {
    let json_data = json(
        r#"{
            "content": {
                "slot_id": "m.call#ROOM",
                "sticky_key": "xyzABCDEF0123",
                "application": {
                    "type": "m.call",
                    "m.call.id": "UUID"
                },
                "member": {
                    "id": "xyzABCDEF0123",
                    "claimed_device_id": "DEVICEID",
                    "claimed_user_id": "@user:matrix.domain"
                },
                "rtc_transports": [
                    {
                        "type": "livekit",
                        "livekit_service_url": "https://livekit.example.com/jwt"
                    }
                ],
                "versions": ["v0"]
            },
            "event_id": "$event:notareal.hs",
            "origin_server_ts": 134829848,
            "room_id": "!roomid:notareal.hs",
            "sender": "@user:matrix.domain",
            "type": "m.rtc.member"
        }"#,
    );

    assert!(RtcMemberEventContent::matches_event_type(json_data["type"].as_str().unwrap()));
    let content =
        RtcMemberEventContent::from_json_object(json_data["content"].as_object().unwrap().clone())
            .unwrap();
    assert_eq!(content.slot_id, "m.call#ROOM");
    assert_eq!(content.sticky_key, "xyzABCDEF0123");
    assert_eq!(content.rtc_transports.len(), 1);
    let member = content.member.unwrap();
    assert_eq!(member.id, "xyzABCDEF0123");
}

#[test]
fn disconnecting_member_event_deserialization() {
    let json_data = json(
        r#"{
            "content": {
                "slot_id": "m.call#ROOM",
                "sticky_key": "xyzABCDEF0123",
                "disconnect_reason": {
                    "class": "user_action",
                    "reason": "hangup"
                }
            },
            "event_id": "$event:notareal.hs",
            "origin_server_ts": 134829848,
            "room_id": "!roomid:notareal.hs",
            "sender": "@user:matrix.domain",
            "type": "m.rtc.member"
        }"#,
    );

    assert!(RtcMemberEventContent::matches_event_type(json_data["type"].as_str().unwrap()));
    let content =
        RtcMemberEventContent::from_json_object(json_data["content"].as_object().unwrap().clone())
            .unwrap();
    assert!(content.member.is_none());
    let reason = content.disconnect_reason.unwrap();
    assert_eq!(reason.class, DisconnectClass::UserAction);
    assert_eq!(reason.reason, "hangup");
}
