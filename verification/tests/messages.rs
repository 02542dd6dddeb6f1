use ocpp_rs::json::JsonValue;
use ocpp_rs::message::{CallErrorMessage, CallMessage, CallResultMessage, Message, RawMessage};
use ocpp_rs::types::{CallErrorCode, MessageType, OcppError};

fn object(members: Vec<(&str, JsonValue)>) -> JsonValue {
    JsonValue::object(members.into_iter().map(|(k, v)| (k.to_string(), v)).collect())
}

#[test]
fn test_call_message_creation() {
    let payload = object(vec![("idTag", JsonValue::string("12345"))]);
    let msg = CallMessage::new("Authorize".to_string(), payload.clone()).unwrap();

    assert_eq!(msg.action, "Authorize");
    assert_eq!(msg.message_type, MessageType::Call);
    assert!(!msg.unique_id.is_empty());
    assert_eq!(msg.payload, payload);
}

#[test]
fn test_call_result_message_creation() {
    let payload = object(vec![("idTagInfo", object(vec![("status", JsonValue::string("Accepted"))]))]);
    let msg = CallResultMessage::new("12345".to_string(), payload.clone()).unwrap();

    assert_eq!(msg.unique_id, "12345");
    assert_eq!(msg.message_type, MessageType::CallResult);
    assert_eq!(msg.payload, payload);
    assert_eq!(msg.payload.to_string(), r#"{"idTagInfo":{"status":"Accepted"}}"#);
}

#[test]
fn test_call_error_message_creation() {
    let msg = CallErrorMessage::new(
        "12345".to_string(),
        CallErrorCode::NotImplemented,
        "Action not implemented".to_string(),
        None,
    );

    assert_eq!(msg.unique_id, "12345");
    assert_eq!(msg.message_type, MessageType::CallError);
    assert_eq!(msg.error_code, CallErrorCode::NotImplemented);
    assert_eq!(msg.error_description, "Action not implemented");
}

#[test]
fn test_message_enum() {
    let payload = object(vec![("test", JsonValue::string("data"))]);
    let msg = Message::call("TestAction".to_string(), payload).unwrap();

    assert_eq!(msg.message_type(), MessageType::Call);
    assert!(!msg.unique_id().is_empty());
}

#[test]
fn test_raw_message_conversion() {
    let payload = object(vec![("idTag", JsonValue::string("12345"))]);
    let call_msg = CallMessage::new("Authorize".to_string(), payload).unwrap();
    let message = Message::Call(call_msg.clone());

    let raw: RawMessage = message.into();
    let converted_back = raw.into_message().unwrap();

    if let Message::Call(converted_call) = converted_back {
        assert_eq!(converted_call.action, call_msg.action);
        assert_eq!(converted_call.unique_id, call_msg.unique_id);
        assert_eq!(converted_call.payload, call_msg.payload);
    } else {
        panic!("Expected Call message");
    }
}

#[test]
fn test_raw_message_invalid_type() {
    let raw = RawMessage::Call(5, "test".to_string(), "Action".to_string(), JsonValue::empty_object());
    let result = raw.into_message();
    assert!(result.is_err());

    if let Err(OcppError::InvalidMessageType(5)) = result {
        // Expected
    } else {
        panic!("Expected InvalidMessageType error");
    }
}

#[test]
fn error_frames_round_trip_their_codes() {
    let msg = Message::call_error(
        "e1".to_string(),
        CallErrorCode::FormationViolation,
        "bad".to_string(),
        Some(object(vec![("detail", JsonValue::string("more info"))])),
    );
    let raw = RawMessage::from_message(msg.clone());
    match &raw {
        RawMessage::CallError(t, id, code, description, _) => {
            assert_eq!(*t, 4);
            assert_eq!(id, "e1");
            assert_eq!(code, "FormationViolation");
            assert_eq!(description, "bad");
        }
        _ => panic!("Expected CallError"),
    }
    assert_eq!(raw.into_message().unwrap(), msg);
    let unknown = RawMessage::CallError(4, "x".to_string(), "Whatever".to_string(), "d".to_string(), JsonValue::null());
    assert!(matches!(unknown.into_message(), Err(OcppError::ProtocolViolation { .. })));
}

#[test]
fn json_values_are_compact_texts() {
    assert_eq!(JsonValue::string("a\"b\n").to_string(), r#""a\"b\n""#);
    assert_eq!(JsonValue::number(42).to_string(), "42");
    assert_eq!(JsonValue::array(vec![JsonValue::number(1), JsonValue::null()]).to_string(), "[1,null]");
    let v = JsonValue::parse(r#"{ "b" : [1, 2], "a": "x" }"#).unwrap();
    assert_eq!(v.to_string(), r#"{"a":"x","b":[1,2]}"#);
    assert_eq!(v.get("a").unwrap().as_str(), Some("x".to_string()));
    assert_eq!(v.get("b").unwrap().as_array().unwrap().len(), 2);
    assert!(JsonValue::parse("{").is_err());
}
