use ruma_rtc::encryption_key::{MediaKey, ToDeviceRtcEncryptionKeyEventContent};
use serde_json::Value;

fn json(text: &str) -> Value {
    serde_json::from_str(text).unwrap()
}

#[test]
fn encryption_key_event_serialization() {
    let content = ToDeviceRtcEncryptionKeyEventContent::new(
        "!roomid:matrix.domain".to_owned(),
        "xyzABCDEF0123".to_owned(),
        MediaKey::new(10, "base64encodedkey".to_owned()),
        "0".to_owned(),
    );

    assert_eq!(
        Value::Object(content.to_json_object()),
        json(
            r#"{
                "room_id": "!roomid:matrix.domain",
                "member_id": "xyzABCDEF0123",
                "media_key": {
                    "index": 10,
                    "key": "base64encodedkey"
                },
                "version": "0"
            }"#
        )
    );
}

#[test]
fn encryption_key_event_deserialization() {
    let json_data = json(
        r#"{
            "content": {
                "room_id": "!roomid:matrix.domain",
                "member_id": "xyzABCDEF0123",
                "media_key": {
                    "index": 10,
                    "key": "base64encodedkey"
                },
                "version": "0"
            },
            "sender": "@user:matrix.domain",
            "type": "m.rtc.encryption_key"
        }"#,
    );

    assert!(ToDeviceRtcEncryptionKeyEventContent::matches_event_type(
        json_data["type"].as_str().unwrap()
    ));
    let content = ToDeviceRtcEncryptionKeyEventContent::from_json_object(
        json_data["content"].as_object().unwrap().clone(),
    )
    .unwrap();
    assert_eq!(content.member_id, "xyzABCDEF0123");
    assert_eq!(content.media_key.index, 10);
}
