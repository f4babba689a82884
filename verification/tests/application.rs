use ruma_rtc::application::{CallApplication, RtcApplication};
use serde_json::Value;

fn json(text: &str) -> Value {
    serde_json::from_str(text).unwrap()
}

#[test]
fn serialize_roundtrip_call_application() {
    let application = RtcApplication::from(CallApplication::new("UUID".to_owned()));
    let json = json(r#"{ "type": "m.call", "m.call.id": "UUID" }"#);

    assert_eq!(application.application_type(), "m.call");
    assert_eq!(Value::Object(application.to_json_object()), json);
    assert_eq!(
        RtcApplication::from_json_object(json.as_object().unwrap().clone()).unwrap(),
        application
    );
}

#[test]
fn serialize_roundtrip_call_application_voice_only() {
    let mut call = CallApplication::new("UUID".to_owned());
    call.voice_only = true;
    let application = RtcApplication::from(call);
    let json = json(r#"{ "type": "m.call", "m.call.id": "UUID", "m.call.voice_only": true }"#);

    assert_eq!(Value::Object(application.to_json_object()), json);
    assert_eq!(
        RtcApplication::from_json_object(json.as_object().unwrap().clone()).unwrap(),
        application
    );
}

#[test]
fn serialize_roundtrip_custom_application() {
    let json = json(r#"{ "type": "org.example.app", "foo": "bar" }"#);
    let application = RtcApplication::from_json_object(json.as_object().unwrap().clone()).unwrap();

    assert_eq!(application.application_type(), "org.example.app");
    assert_eq!(Value::Object(application.to_json_object()), json);
}
