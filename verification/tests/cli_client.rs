use ocpp_rs::client::utils::{format_ocpp_message, generate_message_id, parse_ocpp_message, validate_message_format};
use ocpp_rs::client::{
    frame_event, send_event, ClientConfig, ClientEvent, ConnectError, ConnectOutcome, ConnectionState, IncomingFrame,
    OcppMessage, OcppWebSocketClient, ReconnectStep,
};
use ocpp_rs::json::JsonValue;
use std::time::Duration;

#[test]
fn test_client_config_default() {
    let config = ClientConfig::default();
    assert_eq!(config.connect_timeout, Duration::from_secs(30));
    assert_eq!(config.max_reconnect_attempts, 5);
}

#[test]
fn test_connection_state() {
    assert_eq!(ConnectionState::Disconnected, ConnectionState::Disconnected);
    assert_ne!(ConnectionState::Connected, ConnectionState::Disconnected);
}

#[test]
fn test_parse_call_message() {
    let json = r#"[2, "12345", "Heartbeat", {}]"#;
    let message = parse_ocpp_message(json).unwrap();

    assert_eq!(message.message_type, 2);
    assert_eq!(message.message_id, "12345");
    assert_eq!(message.action, "Heartbeat");
}

#[test]
fn test_parse_call_result_message() {
    let json = r#"[3, "12345", {"currentTime": "2024-01-01T10:00:00Z"}]"#;
    let message = parse_ocpp_message(json).unwrap();

    assert_eq!(message.message_type, 3);
    assert_eq!(message.message_id, "12345");
    assert_eq!(message.action, "CallResult");
}

#[test]
fn test_parse_call_error_message() {
    let json = r#"[4, "12345", "InternalError", "Something went wrong", {}]"#;
    let message = parse_ocpp_message(json).unwrap();

    assert_eq!(message.message_type, 4);
    assert_eq!(message.message_id, "12345");
    assert_eq!(message.action, "InternalError");
}

#[test]
fn test_format_call_message() {
    let message = OcppMessage {
        message_type: 2,
        message_id: "test-123".to_string(),
        action: "BootNotification".to_string(),
        payload: JsonValue::object(vec![("chargePointVendor".to_string(), JsonValue::string("Test"))]),
    };

    let json = format_ocpp_message(&message).unwrap();
    assert!(json.contains("BootNotification"));
    assert!(json.contains("test-123"));
}

#[test]
fn test_generate_message_id() {
    let id1 = generate_message_id();
    let id2 = generate_message_id();

    assert_ne!(id1, id2);
    assert!(!id1.is_empty());
    assert!(!id2.is_empty());
}

#[test]
fn test_validate_message_format() {
    let valid_json = r#"[2, "12345", "Heartbeat", {}]"#;
    assert!(validate_message_format(valid_json).is_ok());

    let invalid_json = r#"{"not": "an array"}"#;
    assert!(validate_message_format(invalid_json).is_err());
}

#[test]
fn client_test_client_creation() {
    let config = ClientConfig::default();
    let client = OcppWebSocketClient::new("wss://example.com/ocpp/test".to_string(), config);

    assert_eq!(client.state(), ConnectionState::Disconnected);
    assert!(!client.is_connected());

    let mut transport = ocpp_rs::transport::OcppClient::new();
    assert_eq!(transport.state(), ocpp_rs::transport::ConnectionState::Closed);
    assert!(!transport.connection_id().is_nil());
    assert!(transport.connect("ws://localhost:8080/ocpp/test").is_ok());
    assert!(transport.is_connected());
}

#[test]
fn format_then_parse_gives_back_the_frame() {
    let message = OcppMessage {
        message_type: 2,
        message_id: "abc".to_string(),
        action: "Heartbeat".to_string(),
        payload: JsonValue::empty_object(),
    };
    let text = format_ocpp_message(&message).unwrap();
    assert_eq!(text, r#"[2,"abc","Heartbeat",{}]"#);
    let back = parse_ocpp_message(&text).unwrap();
    assert_eq!(back.message_type, 2);
    assert_eq!(back.message_id, "abc");
    assert_eq!(back.action, "Heartbeat");
    assert_eq!(back.payload.to_string(), "{}");
}

#[test]
fn parse_rejects_unknown_type_and_short_frames() {
    assert!(parse_ocpp_message(r#"[7, "1", "X", {}]"#).is_err());
    assert!(parse_ocpp_message(r#"[2, "1"]"#).is_err());
    assert!(parse_ocpp_message("not json").is_err());
    assert!(validate_message_format(r#"[4, "1", "InternalError"]"#).is_err());
}

#[test]
fn connect_state_machine_follows_outcomes() {
    let mut client = OcppWebSocketClient::new("ws://localhost:9000/ocpp/CP1".to_string(), ClientConfig::default());
    assert!(matches!(client.send_ready(), Err(ConnectError::NotConnected)));
    assert!(client.begin_connect().is_ok());
    assert_eq!(client.state(), ConnectionState::Connecting);
    assert!(client.finish_connect(ConnectOutcome::Established).is_ok());
    assert!(client.is_connected());
    assert!(client.send_ready().is_ok());
    assert!(client.disconnect().is_ok());
    assert_eq!(client.state(), ConnectionState::Disconnected);
    assert_eq!(client.send_ready().unwrap_err().to_string(), "Client not connected");

    let err = client.finish_connect(ConnectOutcome::TimedOut).unwrap_err();
    assert_eq!(err.to_string(), "Connection timeout");
    assert_eq!(client.state(), ConnectionState::Failed);
}

#[test]
fn invalid_url_is_refused_at_connect() {
    let mut client = OcppWebSocketClient::new("not a url".to_string(), ClientConfig::default());
    assert!(matches!(client.begin_connect(), Err(ConnectError::InvalidUrl(_))));
    assert_eq!(client.state(), ConnectionState::Connecting);
}

#[test]
fn reconnect_gives_up_after_the_last_attempt() {
    let mut client = OcppWebSocketClient::new("ws://h/x".to_string(), ClientConfig::default());
    assert_eq!(client.begin_reconnect(), ReconnectStep::Attempt(1));
    assert_eq!(client.state(), ConnectionState::Reconnecting);
    assert_eq!(client.after_reconnect_attempt(1, false), ReconnectStep::WaitThenAttempt(2));
    assert_eq!(client.after_reconnect_attempt(4, false), ReconnectStep::WaitThenAttempt(5));
    assert_eq!(client.after_reconnect_attempt(5, false), ReconnectStep::GiveUp);
    assert_eq!(client.state(), ConnectionState::Failed);
    assert_eq!(ConnectError::AttemptsExhausted.to_string(), "Max reconnection attempts exceeded");
}

#[test]
fn frames_become_events() {
    let (e, stop) = frame_event(IncomingFrame::Text("hi".to_string()));
    assert!(matches!(e, Some(ClientEvent::MessageReceived { ref message }) if message == "hi"));
    assert!(!stop);
    let (e, _) = frame_event(IncomingFrame::Binary(vec![0xff, 0xfe]));
    assert!(e.is_none());
    let (e, _) = frame_event(IncomingFrame::Binary(b"ok".to_vec()));
    assert!(matches!(e, Some(ClientEvent::MessageReceived { ref message }) if message == "ok"));
    let (e, stop) = frame_event(IncomingFrame::Close(None));
    assert!(matches!(e, Some(ClientEvent::Disconnected { ref reason }) if reason == "Unknown"));
    assert!(stop);
    let (e, stop) = frame_event(IncomingFrame::ReadError("boom".to_string()));
    assert!(matches!(e, Some(ClientEvent::Error { ref error }) if error == "Read error: boom"));
    assert!(stop);
    let (e, stop) = send_event("m".to_string(), Some("gone".to_string()));
    assert!(matches!(e, ClientEvent::Error { ref error } if error == "Send error: gone"));
    assert!(stop);
}
