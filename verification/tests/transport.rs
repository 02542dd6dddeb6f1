use ocpp_rs::transport::{ConnectionState, OcppClient, TransportError, TransportEvent, WebSocketClient, WebSocketFailure};
use ocpp_rs::types::OcppError;

#[test]
fn test_transport_error_display() {
    let error = TransportError::MessageTooLarge { size: 100000, limit: 65536 };
    let message = error.to_string();
    assert!(message.contains("100000"));
    assert!(message.contains("65536"));
    assert_eq!(message, "Message too large: 100000 bytes exceeds limit of 65536 bytes");
}

#[test]
fn test_error_conversion_from_io() {
    let io_error = std::io::Error::new(std::io::ErrorKind::ConnectionRefused, "Connection refused");
    let transport_error = TransportError::from(io_error);

    match transport_error {
        TransportError::IoError { message } => {
            assert!(message.contains("Connection refused"));
        }
        _ => panic!("Expected IoError"),
    }
}

#[test]
fn test_error_conversion_from_serde() {
    let serde_error = serde_json::from_str::<i32>("invalid json").unwrap_err();
    let transport_error = TransportError::from(serde_error);

    match transport_error {
        TransportError::SerializationError { message } => {
            assert!(!message.is_empty());
        }
        _ => panic!("Expected SerializationError"),
    }
}

#[test]
fn test_error_conversion_from_tungstenite() {
    let ws_error = tungstenite::Error::ConnectionClosed;
    let transport_error = TransportError::from(ws_error);

    match transport_error {
        TransportError::ConnectionClosed { reason } => {
            assert!(reason.contains("closed"));
        }
        _ => panic!("Expected ConnectionClosed"),
    }
}

#[test]
fn test_client_connect() {
    let mut client = OcppClient::new();
    let _result = client.connect("ws://localhost:8080/ocpp/test");
    assert_eq!(client.state(), ConnectionState::Connected);
    let id = client.connection_id();
    assert!(client.disconnect().is_ok());
    assert_eq!(client.state(), ConnectionState::Closed);
    assert_eq!(client.connection_id(), id);
    assert!(client.run().is_ok());
}

#[test]
fn protocol_errors_map_onto_transport_errors() {
    let e = TransportError::from(OcppError::Json { message: "eof".to_string() });
    assert!(matches!(e, TransportError::SerializationError { ref message } if message == "eof"));
    let e = TransportError::from(OcppError::Timeout { operation: "boot".to_string() });
    assert!(matches!(e, TransportError::Timeout { timeout_secs: 30 }));
    let e = TransportError::from(OcppError::Transport { message: "down".to_string() });
    assert!(matches!(e, TransportError::Internal { ref message } if message == "down"));
    let e = TransportError::from(OcppError::ValidationError { message: "x".to_string() });
    assert_eq!(e.to_string(), "Internal transport error: Validation error: x");
    let e = TransportError::from_websocket(WebSocketFailure::AlreadyClosed);
    assert_eq!(e.to_string(), "Connection closed: WebSocket already closed");
    let e = TransportError::from_websocket(WebSocketFailure::Tls("handshake".to_string()));
    assert_eq!(e.to_string(), "TLS error: handshake");
    let e = TransportError::NotReady { state: ConnectionState::Closing };
    assert_eq!(e.to_string(), "Connection not ready, current state: Closing");
}

#[test]
fn websocket_client_reports_a_lost_connection() {
    let mut client = WebSocketClient::new();
    assert!(client.finish_connect("ws://cs", Ok(())).is_ok());
    match client.connection_lost() {
        TransportEvent::Disconnected { connection_id, reason } => {
            assert_eq!(connection_id, client.connection_id());
            assert_eq!(reason, "Connection closed");
        },
        _ => panic!("expected the Disconnected event"),
    }
    assert_eq!(client.state(), ConnectionState::Closed);
    assert!(client.send_check().is_ok());
}

#[test]
fn websocket_client_tracks_its_channel() {
    let mut client = WebSocketClient::new();
    assert_eq!(client.state(), ConnectionState::Connecting);
    assert!(matches!(client.send_check(), Err(OcppError::Transport { ref message }) if message == "Not connected"));
    let failed = client.finish_connect("ws://cs/ocpp/CP1", Err(TransportError::Timeout { timeout_secs: 30 }));
    assert!(matches!(failed, Err(TransportError::Timeout { timeout_secs: 30 })));
    assert_eq!(client.state(), ConnectionState::Connecting);
    assert!(client.send_check().is_err());
    let event = client.finish_connect("ws://cs/ocpp/CP1", Ok(()));
    match event {
        Ok(TransportEvent::Connected { connection_id, remote_addr }) => {
            assert_eq!(connection_id, client.connection_id());
            assert_eq!(remote_addr, "ws://cs/ocpp/CP1");
        },
        _ => panic!("expected the Connected event"),
    }
    assert!(client.is_connected());
    assert!(client.send_check().is_ok());
    let id = client.connection_id();
    assert!(client.close().is_ok());
    assert_eq!(client.state(), ConnectionState::Closed);
    assert_eq!(client.connection_id(), id);
    assert!(matches!(
        client.send_check(),
        Err(OcppError::Transport { ref message }) if message == "Failed to send message: channel closed"
    ));
    let e = ocpp_rs::transport::close_failure(TransportError::Internal { message: "x".to_string() });
    assert!(matches!(e, OcppError::Transport { ref message } if message == "Failed to close connection: Internal transport error: x"));
}
