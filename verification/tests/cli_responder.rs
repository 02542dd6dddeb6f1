use ocpp_rs::cli::{
    call_reply, create_boot_notification, data_transfer_reply, endpoint_of, format_duration, handle_message,
    handshake_headers, log_level, resolve_endpoint, LogLevel,
};
use ocpp_rs::cli::SimulatorState;
use ocpp_rs::json::JsonValue;
use ocpp_rs::time::Timestamp;

fn fresh() -> SimulatorState {
    SimulatorState::new("CP1".to_string(), 1, Timestamp { secs: 0, nanos: 0 })
}

#[test]
fn every_message_is_counted() {
    let mut state = fresh();
    assert!(handle_message("[2,", &mut state).is_err());
    assert_eq!(handle_message(r#"{"a": 1}"#, &mut state).unwrap(), None);
    assert!(handle_message(r#"[2, "h", "Reset", {}]"#, &mut state).unwrap().is_some());
    assert_eq!(state.message_count, 3);
    assert_eq!(state.charge_point_id, "CP1");
    assert!(!state.connected);
}

#[test]
fn plain_calls_are_accepted() {
    for action in ["ChangeAvailability", "RemoteStartTransaction", "RemoteStopTransaction", "Reset", "ChangeConfiguration"] {
        let frame = format!(r#"[2, "m1", "{}", {{}}]"#, action);
        assert_eq!(handle_message(&frame, &mut fresh()).unwrap(), Some(r#"[3,"m1",{"status":"Accepted"}]"#.to_string()));
    }
}

#[test]
fn get_configuration_reports_no_keys() {
    let reply = handle_message(r#"[2, "g", "GetConfiguration", {"key": []}]"#, &mut fresh()).unwrap();
    assert_eq!(reply, Some(r#"[3,"g",{"configurationKey":[],"unknownKey":[]}]"#.to_string()));
}

#[test]
fn unsupported_actions_are_refused() {
    let reply = handle_message(r#"[2, "u", "UpdateFirmware", {}]"#, &mut fresh()).unwrap();
    assert_eq!(
        reply,
        Some(r#"[4,"u","NotSupported","Action 'UpdateFirmware' is not supported",{}]"#.to_string())
    );
}

#[test]
fn other_frames_get_no_reply() {
    assert_eq!(handle_message(r#"[3, "x", {}, 1]"#, &mut fresh()).unwrap(), None);
    assert_eq!(handle_message(r#"[4, "x", "InternalError", "d", {}]"#, &mut fresh()).unwrap(), None);
    assert_eq!(handle_message(r#"[2, "x", "Reset"]"#, &mut fresh()).unwrap(), None);
    assert_eq!(handle_message(r#"{"a": 1}"#, &mut fresh()).unwrap(), None);
    assert!(handle_message("[2,", &mut fresh()).is_err());
}

#[test]
fn data_transfer_answers_by_vendor() {
    let reply = handle_message(r#"[2, "d1", "DataTransfer", {"vendorId": "1", "messageId": "Note", "data": "hi"}]"#, &mut fresh()).unwrap();
    assert_eq!(reply, Some(r#"[3,"d1",{"data":"hi","status":"Accepted"}]"#.to_string()));
    let reply = handle_message(r#"[2, "d2", "DataTransfer", {"vendorId": "1"}]"#, &mut fresh()).unwrap();
    assert_eq!(reply, Some(r#"[3,"d2",{"data":"","status":"Accepted"}]"#.to_string()));
    let reply = handle_message(r#"[2, "d3", "DataTransfer", {"vendorId": "ACME", "data": "x"}]"#, &mut fresh()).unwrap();
    assert_eq!(reply, Some(r#"[3,"d3",{"data":"","status":"UnknownVendorId"}]"#.to_string()));
    let reply = handle_message(r#"[2, "d4", "DataTransfer", {"vendorId": "1", "messageId": "Qrcode"}]"#, &mut fresh()).unwrap().unwrap();
    assert!(reply.starts_with(r#"[3,"d4",{"data":"{\"qr_code_displayed\":true,\"result\":\"success\",\"timestamp\":\""#));
    assert!(reply.ends_with(r#"\"}","status":"Accepted"}]"#));
}

#[test]
fn data_transfer_reply_with_a_fixed_clock() {
    let r = data_transfer_reply("q", "1", Some("Qrcode"), None, "2024-01-01T00:00:00+00:00");
    assert_eq!(
        r,
        r#"[3,"q",{"data":"{\"qr_code_displayed\":true,\"result\":\"success\",\"timestamp\":\"2024-01-01T00:00:00+00:00\"}","status":"Accepted"}]"#
    );
    let payload = JsonValue::parse(r#"{"vendorId":"2"}"#).unwrap();
    assert_eq!(call_reply("z", "DataTransfer", &payload, "t"), r#"[3,"z",{"data":"","status":"UnknownVendorId"}]"#);
}

#[test]
fn boot_notification_names_the_charge_point() {
    assert_eq!(
        create_boot_notification("CP-1"),
        r#"[2,"1","BootNotification",{"chargePointModel":"CLI-Simulator","chargePointSerialNumber":"CP-1","chargePointVendor":"OCPP-RS","firmwareVersion":"1.0.0"}]"#
    );
}

#[test]
fn durations_show_their_largest_units() {
    assert_eq!(format_duration(0), "0s");
    assert_eq!(format_duration(59), "59s");
    assert_eq!(format_duration(61), "1m 1s");
    assert_eq!(format_duration(3600), "1h 0m 0s");
    assert_eq!(format_duration(3725), "1h 2m 5s");
}

#[test]
fn log_levels_ignore_case() {
    assert_eq!(log_level("TRACE"), LogLevel::Trace);
    assert_eq!(log_level("Debug"), LogLevel::Debug);
    assert_eq!(log_level("warn"), LogLevel::Warn);
    assert_eq!(log_level("error"), LogLevel::Error);
    assert_eq!(log_level("verbose"), LogLevel::Info);
}

#[test]
fn endpoints_follow_the_scheme() {
    let e = resolve_endpoint("wss://example.com/ocpp/CP1").unwrap();
    assert_eq!((e.host.as_str(), e.port, e.tls), ("example.com", 443, true));
    let e = resolve_endpoint("ws://localhost:9000/ocpp").unwrap();
    assert_eq!((e.host.as_str(), e.port, e.tls), ("localhost", 9000, false));
    let e = resolve_endpoint("ws://10.0.0.1/ocpp").unwrap();
    assert_eq!(e.port, 80);
    assert!(resolve_endpoint("not a url").is_err());
    assert_eq!(endpoint_of("ws", None, None).err().unwrap(), "No host in URL");
    let headers = handshake_headers("h", "k");
    assert_eq!(headers[5], ("Sec-WebSocket-Protocol".to_string(), "ocpp1.6".to_string()));
    assert_eq!(headers.len(), 6);
}

#[test]
fn simulator_state_counts_messages_and_uptime() {
    let start = Timestamp { secs: 1_000, nanos: 500_000_000 };
    let mut state = SimulatorState::new("CP1".to_string(), 2, start);
    assert_eq!(state.message_count, 0);
    state.record_message();
    state.record_message();
    assert_eq!(state.message_count, 2);
    assert_eq!(state.uptime_seconds(Timestamp { secs: 1_061, nanos: 400_000_000 }), 60);
    assert_eq!(state.uptime_seconds(Timestamp { secs: 999, nanos: 0 }), 0);
}
