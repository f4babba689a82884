use ruma_rtc::application::{CallApplication, RtcApplication};
use ruma_rtc::slot::RtcSlotEventContent;
use serde_json::Value;

fn json(text: &str) -> Value {
    serde_json::from_str(text).unwrap()
}

#[test]
fn slot_event_serialization() {
    let content =
        RtcSlotEventContent::new(RtcApplication::from(CallApplication::new("UUID".to_owned())));

    assert_eq!(
        Value::Object(content.to_json_object()),
        json(
            r#"{
                "application": {
                    "type": "m.call",
                    "m.call.id": "UUID"
                }
            }"#
        )
    );
}

#[test]
fn closed_slot_event_serialization() {
    let content = RtcSlotEventContent::closed();
    assert_eq!(Value::Object(content.to_json_object()), json("{}"));
}

#[test]
fn slot_event_deserialization() {
    let json_data = json(
        r#"{
            "content": {
                "application": {
                    "type": "m.call",
                    "m.call.id": "UUID"
                }
            },
            "event_id": "$event:notareal.hs",
            "origin_server_ts": 134829848,
            "room_id": "!roomid:notareal.hs",
            "sender": "@user:notareal.hs",
            "state_key": "m.call#ROOM",
            "type": "m.rtc.slot"
        }"#,
    );

    assert!(RtcSlotEventContent::matches_event_type(json_data["type"].as_str().unwrap()));
    let content =
        RtcSlotEventContent::from_json_object(json_data["content"].as_object().unwrap().clone())
            .unwrap();
    // The state key belongs to the event envelope, which this crate does not model: this line
    // reads it from the input and checks nothing of the library.
    assert_eq!(json_data["state_key"], "m.call#ROOM");
    assert!(matches!(content.application, Some(RtcApplication::Call(_))));
}

#[test]
fn closed_slot_event_deserialization() {
    let json_data = json(
        r#"{
            "content": {},
            "event_id": "$event:notareal.hs",
            "origin_server_ts": 134829848,
            "room_id": "!roomid:notareal.hs",
            "sender": "@user:notareal.hs",
            "state_key": "m.call#ROOM",
            "type": "m.rtc.slot"
        }"#,
    );

    assert!(RtcSlotEventContent::matches_event_type(json_data["type"].as_str().unwrap()));
    let content =
        RtcSlotEventContent::from_json_object(json_data["content"].as_object().unwrap().clone())
            .unwrap();
    assert_eq!(content.application, None);
}
