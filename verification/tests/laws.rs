use ruma_rtc::application::{CallApplication, RtcApplication};
use ruma_rtc::encryption_key::{MediaKey, ToDeviceRtcEncryptionKeyEventContent};
use ruma_rtc::identifiers::{check_room_id, check_user_id};
use ruma_rtc::json::DecodeError;
use ruma_rtc::member::{DisconnectClass, DisconnectReason, RtcMember, RtcMemberEventContent};
use ruma_rtc::slot::RtcSlotEventContent;
use ruma_rtc::sticky::{StickyDurationMs, StickyObject};
use ruma_rtc::transport::RtcTransport;
use serde_json::Value;

fn object(text: &str) -> serde_json::Map<String, Value> {
    serde_json::from_str::<Value>(text).unwrap().as_object().unwrap().clone()
}

#[test]
fn new_clamped_keeps_durations_up_to_one_hour() {
    assert_eq!(StickyDurationMs::new_clamped(0u32).get(), 0);
    assert_eq!(StickyDurationMs::new_clamped(1500u16).get(), 1500);
    assert_eq!(StickyDurationMs::new_clamped(3_600_000u64).get(), 3_600_000);
    assert_eq!(u32::from(StickyDurationMs::new_clamped(42u8)), 42);
}

#[test]
fn new_clamped_caps_longer_durations() {
    assert_eq!(StickyDurationMs::new_clamped(3_600_001u64).get(), StickyDurationMs::MAX);
    assert_eq!(StickyDurationMs::new_clamped(u64::MAX).get(), 3_600_000);
    let d = StickyDurationMs::new_clamped(u32::MAX);
    assert_eq!(StickyDurationMs::new_clamped(d.get()), d);
}

#[test]
fn sticky_object_valid_round_trip() {
    let obj = object(r#"{ "duration_ms": 1000 }"#);
    let sticky = StickyObject::from_json_object(obj.clone()).unwrap();
    assert_eq!(sticky.sticky_duration().unwrap().get(), 1000);
    assert_eq!(sticky.to_json_object(), obj);
}

#[test]
fn sticky_object_out_of_range_round_trip() {
    let obj = object(r#"{ "duration_ms": 3600001 }"#);
    let sticky = StickyObject::from_json_object(obj.clone()).unwrap();
    assert!(matches!(sticky, StickyObject::OutOfRange(_)));
    assert!(sticky.sticky_duration().is_none());
    assert_eq!(sticky.to_json_object(), obj);
    let clone = sticky.clone();
    assert_eq!(clone.to_json_object(), obj);
}

#[test]
fn sticky_object_boundary_is_valid() {
    let sticky = StickyObject::from_json_object(object(r#"{ "duration_ms": 3600000 }"#)).unwrap();
    assert_eq!(sticky.sticky_duration().unwrap().get(), 3_600_000);
}

#[test]
fn sticky_object_errors() {
    assert_eq!(
        StickyObject::from_json_object(object(r#"{ "duration_ms": 9007199254740992 }"#)).unwrap_err(),
        DecodeError::InvalidValue("duration_ms".to_owned())
    );
    assert!(StickyObject::from_json_object(object(r#"{ "duration_ms": 9007199254740991 }"#)).is_ok());
    assert_eq!(
        StickyObject::from_json_object(object("{}")).unwrap_err(),
        DecodeError::MissingField("duration_ms".to_owned())
    );
    assert_eq!(
        StickyObject::from_json_object(object(r#"{ "duration_ms": -1 }"#)).unwrap_err(),
        DecodeError::InvalidType("duration_ms".to_owned())
    );
    assert_eq!(
        StickyObject::from_json_object(object(r#"{ "duration_ms": 1.5 }"#)).unwrap_err(),
        DecodeError::InvalidType("duration_ms".to_owned())
    );
}

#[test]
fn call_application_errors() {
    assert_eq!(
        CallApplication::from_json_object(object("{}")).unwrap_err(),
        DecodeError::MissingField("m.call.id".to_owned())
    );
    assert_eq!(
        CallApplication::from_json_object(object(r#"{ "m.call.id": 5 }"#)).unwrap_err(),
        DecodeError::InvalidType("m.call.id".to_owned())
    );
    assert_eq!(
        CallApplication::from_json_object(object(r#"{ "m.call.id": "a", "m.call.voice_only": null }"#))
            .unwrap_err(),
        DecodeError::InvalidType("m.call.voice_only".to_owned())
    );
    let call = CallApplication::from_json_object(object(r#"{ "m.call.id": "a", "other": 1 }"#)).unwrap();
    assert_eq!(call, CallApplication::new("a".to_owned()));
}

#[test]
fn application_type_errors() {
    assert_eq!(
        RtcApplication::from_json_object(object(r#"{ "m.call.id": "a" }"#)).unwrap_err(),
        DecodeError::MissingField("type".to_owned())
    );
    assert_eq!(
        RtcApplication::from_json_object(object(r#"{ "type": 1 }"#)).unwrap_err(),
        DecodeError::InvalidType("type".to_owned())
    );
    assert_eq!(
        RtcApplication::new("m.call", object("{}")).unwrap_err(),
        DecodeError::MissingField("m.call.id".to_owned())
    );
}

#[test]
fn custom_application_from_parts() {
    let application = RtcApplication::new("org.example.app", object(r#"{ "a": [1, 2] }"#)).unwrap();
    assert_eq!(application.application_type(), "org.example.app");
    assert_eq!(
        application.to_json_object(),
        object(r#"{ "type": "org.example.app", "a": [1, 2] }"#)
    );
    let again = RtcApplication::from_json_object(application.to_json_object()).unwrap();
    assert_eq!(again, application);
    assert_eq!(application.clone(), application);
}

#[test]
fn custom_application_data_type_entry_wins() {
    let application = RtcApplication::new("org.example.app", object(r#"{ "type": "other" }"#)).unwrap();
    assert_eq!(application.application_type(), "org.example.app");
    assert_eq!(application.to_json_object(), object(r#"{ "type": "other" }"#));
}

#[test]
fn call_application_from_parts() {
    let application = RtcApplication::new("m.call", object(r#"{ "m.call.id": "X" }"#)).unwrap();
    assert_eq!(application, RtcApplication::Call(CallApplication::new("X".to_owned())));
}

#[test]
fn media_key_round_trip_and_range() {
    let key = MediaKey::new(255, "k".to_owned());
    assert_eq!(MediaKey::from_json_object(key.to_json_object()).unwrap(), key);
    assert_eq!(
        MediaKey::from_json_object(object(r#"{ "index": 256, "key": "k" }"#)).unwrap_err(),
        DecodeError::InvalidValue("index".to_owned())
    );
    assert_eq!(
        MediaKey::from_json_object(object(r#"{ "index": 1 }"#)).unwrap_err(),
        DecodeError::MissingField("key".to_owned())
    );
}

#[test]
fn encryption_key_round_trip() {
    let content = ToDeviceRtcEncryptionKeyEventContent::new(
        "!r:d".to_owned(),
        "m".to_owned(),
        MediaKey::new(0, "k".to_owned()),
        "0".to_owned(),
    );
    let again = ToDeviceRtcEncryptionKeyEventContent::from_json_object(content.to_json_object()).unwrap();
    assert_eq!(again, content);
    assert!(ToDeviceRtcEncryptionKeyEventContent::matches_event_type(
        "org.matrix.msc4143.rtc.encryption_key"
    ));
    assert!(!ToDeviceRtcEncryptionKeyEventContent::matches_event_type("m.rtc.member"));
    assert_eq!(
        ToDeviceRtcEncryptionKeyEventContent::from_json_object(object(
            r#"{ "room_id": "!r:d", "member_id": "m", "media_key": "k", "version": "0" }"#
        ))
        .unwrap_err(),
        DecodeError::InvalidType("media_key".to_owned())
    );
}

#[test]
fn disconnect_class_names() {
    let names = ["user_action", "client_error", "server_error", "redirection", "permanent_failure"];
    for name in names {
        let class = DisconnectClass::from_name(name);
        assert_eq!(class.as_str(), name);
        assert_eq!(DisconnectClass::from_name(class.as_str()), class);
    }
    assert_eq!(DisconnectClass::from_name("client_error"), DisconnectClass::ClientError);
    let custom = DisconnectClass::from_name("org.example.reason");
    assert_eq!(custom.as_str(), "org.example.reason");
}

#[test]
fn disconnect_reason_round_trip() {
    let reason = DisconnectReason::new(DisconnectClass::PermanentFailure, "gone".to_owned());
    assert_eq!(reason.to_json_object(), object(r#"{ "class": "permanent_failure", "reason": "gone" }"#));
    assert_eq!(DisconnectReason::from_json_object(reason.to_json_object()).unwrap(), reason);
    let null_description = DisconnectReason::from_json_object(object(
        r#"{ "class": "x", "reason": "y", "description": null }"#,
    ))
    .unwrap();
    assert_eq!(null_description.description, None);
    assert_eq!(null_description.class.as_str(), "x");
}

#[test]
fn member_content_round_trip() {
    let content = RtcMemberEventContent::new(
        "m.call#ROOM".to_owned(),
        CallApplication::new("UUID".to_owned()).into(),
        RtcMember::new("id".to_owned(), "DEV".to_owned(), "@u:d".to_owned()),
        vec![
            RtcTransport::new("a", object(r#"{ "x": 1 }"#)),
            RtcTransport::new("b", object("{}")),
        ],
        vec!["v0".to_owned(), "v1".to_owned()],
    );
    assert_eq!(content.sticky_key, "id");
    let obj = content.to_json_object();
    let again = RtcMemberEventContent::from_json_object(obj.clone()).unwrap();
    assert_eq!(again.to_json_object(), obj);
    assert_eq!(again.versions, vec!["v0".to_owned(), "v1".to_owned()]);
    assert_eq!(again.rtc_transports[1].transport_type(), "b");
    assert_eq!(again.member, content.member);
}

#[test]
fn member_content_errors() {
    assert_eq!(
        RtcMemberEventContent::from_json_object(object(
            r#"{ "slot_id": "s", "sticky_key": "k", "rtc_transports": null }"#
        ))
        .unwrap_err(),
        DecodeError::InvalidType("rtc_transports".to_owned())
    );
    assert_eq!(
        RtcMemberEventContent::from_json_object(object(
            r#"{ "slot_id": "s", "sticky_key": "k", "rtc_transports": [ "x" ] }"#
        ))
        .unwrap_err(),
        DecodeError::InvalidType("rtc_transports".to_owned())
    );
    assert_eq!(
        RtcMemberEventContent::from_json_object(object(
            r#"{ "slot_id": "s", "sticky_key": "k", "versions": [ "v0", 1 ] }"#
        ))
        .unwrap_err(),
        DecodeError::InvalidType("versions".to_owned())
    );
    assert_eq!(
        RtcMemberEventContent::from_json_object(object(r#"{ "slot_id": "s" }"#)).unwrap_err(),
        DecodeError::MissingField("sticky_key".to_owned())
    );
    let minimal =
        RtcMemberEventContent::from_json_object(object(r#"{ "slot_id": "s", "sticky_key": "k" }"#))
            .unwrap();
    assert!(minimal.rtc_transports.is_empty());
    assert!(minimal.versions.is_empty());
    assert!(minimal.disconnect_reason.is_none());
}

#[test]
fn slot_content_edge_cases() {
    let closed =
        RtcSlotEventContent::from_json_object(object(r#"{ "application": null }"#)).unwrap();
    assert!(closed.application.is_none());
    assert_eq!(
        RtcSlotEventContent::from_json_object(object(r#"{ "application": "m.call" }"#)).unwrap_err(),
        DecodeError::InvalidType("application".to_owned())
    );
    assert!(RtcSlotEventContent::matches_event_type("org.matrix.msc4143.rtc.slot"));
    assert!(!RtcSlotEventContent::matches_event_type("m.rtc.slots"));
    assert!(RtcSlotEventContent::default().application.is_none());
}

#[test]
fn transport_round_trip() {
    let transport = RtcTransport::new("livekit", object(r#"{ "url": "u" }"#));
    assert_eq!(transport.transport_type(), "livekit");
    let obj = transport.to_json_object();
    assert_eq!(obj, object(r#"{ "type": "livekit", "url": "u" }"#));
    assert_eq!(RtcTransport::from_json_object(obj).unwrap(), transport);
    assert_eq!(
        RtcTransport::from_json_object(object("{}")).unwrap_err(),
        DecodeError::MissingField("type".to_owned())
    );
}

#[test]
fn new_clamped_u64_is_exact() {
    assert_eq!(StickyDurationMs::new_clamped_u64(5_000_000).get(), 3_600_000);
    assert_eq!(StickyDurationMs::new_clamped_u64((1u64 << 32) + 5).get(), 3_600_000);
    assert_eq!(StickyDurationMs::new_clamped_u64(1234).get(), 1234);
    assert!(StickyDurationMs::new_clamped_u64(10) <= StickyDurationMs::new_clamped_u64(20));
}

#[test]
fn small_out_of_range_reads_back_as_valid() {
    let sticky = StickyObject::OutOfRange(js_int::UInt::new(5).unwrap());
    let again = StickyObject::from_json_object(sticky.to_json_object()).unwrap();
    assert_eq!(again.sticky_duration().unwrap().get(), 5);
}

#[test]
fn identifier_forms() {
    assert!(check_room_id("!roomid:matrix.domain"));
    assert!(check_room_id("!abc"));
    assert!(!check_room_id("roomid:matrix.domain"));
    assert!(!check_room_id(""));
    assert!(check_user_id("@user:matrix.domain"));
    assert!(check_user_id("@:d"));
    assert!(!check_user_id("user:matrix.domain"));
    assert!(!check_user_id("@user"));
    assert!(!check_user_id("@user:"));
    assert!(!check_user_id(""));
}

#[test]
fn malformed_identifiers_are_refused() {
    assert_eq!(
        ToDeviceRtcEncryptionKeyEventContent::from_json_object(object(
            r#"{ "room_id": "roomid", "member_id": "m", "media_key": { "index": 1, "key": "k" }, "version": "0" }"#
        ))
        .unwrap_err(),
        DecodeError::InvalidValue("room_id".to_owned())
    );
    assert_eq!(
        RtcMember::from_json_object(object(
            r#"{ "id": "i", "claimed_device_id": "D", "claimed_user_id": "user" }"#
        ))
        .unwrap_err(),
        DecodeError::InvalidValue("claimed_user_id".to_owned())
    );
    assert_eq!(
        RtcMemberEventContent::from_json_object(object(
            r#"{ "slot_id": "s", "sticky_key": "k", "member": { "id": "i", "claimed_device_id": "D", "claimed_user_id": "@u:" } }"#
        ))
        .unwrap_err(),
        DecodeError::InvalidValue("claimed_user_id".to_owned())
    );
}
