use ocpp_rs::cp_error::{ChargePointError, ErrorCategory, ErrorContext, ErrorSeverity, ExtendedError};
use ocpp_rs::simulator_error::{
    ErrorCategory as SimulatorCategory, ErrorContext as SimulatorContext, ErrorSeverity as SimulatorSeverity,
    ExtendedSimulatorError, SimulatorError,
};

#[test]
fn error_test_error_creation() {
    let error = ChargePointError::connection("Connection timeout");
    assert!(matches!(error, ChargePointError::ConnectionError(_)));
    assert_eq!(error.to_string(), "Connection error: Connection timeout");

    let error = SimulatorError::configuration("Invalid config");
    assert!(matches!(error, SimulatorError::ConfigurationError(_)));
    assert_eq!(error.to_string(), "Configuration error: Invalid config");
}

#[test]
fn error_test_error_properties() {
    let error = ChargePointError::connection("Test");
    assert!(error.is_recoverable());
    assert_eq!(error.severity(), ErrorSeverity::Error);
    assert_eq!(error.category(), ErrorCategory::Network);
    assert_eq!(error.suggested_retry_delay(), Some(5000));

    let critical_error = ChargePointError::hardware_fault("Overheating", "Temperature too high");
    assert!(!critical_error.is_recoverable());
    assert_eq!(critical_error.severity(), ErrorSeverity::Critical);
    assert_eq!(critical_error.category(), ErrorCategory::Hardware);
    assert_eq!(critical_error.suggested_retry_delay(), None);

    let error = SimulatorError::connection("Connection failed");
    assert!(error.is_recoverable());
    assert_eq!(error.category(), SimulatorCategory::Network);
    assert_eq!(error.severity(), SimulatorSeverity::Error);
    assert_eq!(error.suggested_retry_delay(), Some(5000));

    let critical_error = SimulatorError::internal("System failure");
    assert!(!critical_error.is_recoverable());
    assert_eq!(critical_error.category(), SimulatorCategory::Internal);
    assert_eq!(critical_error.severity(), SimulatorSeverity::Critical);
    assert_eq!(critical_error.suggested_retry_delay(), None);
}

#[test]
fn error_test_error_context() {
    let context = ErrorContext::with_source("connector.rs:123")
        .add_context("connector_id", "1")
        .add_context("operation", "start_transaction");

    assert_eq!(context.source, Some("connector.rs:123".to_string()));
    assert_eq!(context.get_context("connector_id"), Some(&"1".to_string()));
    assert_eq!(context.get_context("operation"), Some(&"start_transaction".to_string()));

    let context = SimulatorContext::with_source("simulator.rs:123")
        .add_context("connector_id", "1")
        .add_context("operation", "plug_in")
        .with_request_id("req-123")
        .with_user_id("user-456");

    assert_eq!(context.source, Some("simulator.rs:123".to_string()));
    assert_eq!(context.context.get("connector_id"), Some(&"1".to_string()));
    assert_eq!(context.request_id, Some("req-123".to_string()));
    assert_eq!(context.user_id, Some("user-456".to_string()));
}

#[test]
fn error_test_extended_error() {
    let error = ChargePointError::connector(1, "Cable lock failed");
    let context = ErrorContext::with_source("connector.rs:456").add_context("retry_count", "3");

    let extended = ExtendedError::with_context(error, context).add_context("timestamp", "2024-01-01T12:00:00Z");

    assert!(!extended.id.is_nil());
    assert!(extended.to_string().contains("Cable lock failed"));
    assert!(extended.to_string().contains(extended.id.to_string().as_str()));

    let error = SimulatorError::fault_injection(1, "Test fault");
    let context = SimulatorContext::with_source("simulator.rs:456").add_context("error_code", "OverCurrentFailure");

    let extended = ExtendedSimulatorError::with_context(error, context).add_context("retry_count", "3");

    assert!(!extended.id.is_nil());
    assert!(extended.to_string().contains("Test fault"));
    assert!(extended.to_string().contains(extended.id.to_string().as_str()));
}

#[test]
fn error_test_error_severity_ordering() {
    assert!(ErrorSeverity::Warning < ErrorSeverity::Error);
    assert!(ErrorSeverity::Error < ErrorSeverity::Critical);
    assert!(SimulatorSeverity::Warning < SimulatorSeverity::Error);
    assert!(SimulatorSeverity::Error < SimulatorSeverity::Critical);
}

#[test]
fn error_test_all_error_variants() {
    let errors = vec![
        ChargePointError::connection("test"),
        ChargePointError::transport("test"),
        ChargePointError::protocol_violation("test"),
        ChargePointError::serialization("test"),
        ChargePointError::authorization_failed("test"),
        ChargePointError::invalid_operation("test"),
        ChargePointError::configuration("test"),
        ChargePointError::connector(1, "test"),
        ChargePointError::transaction(123, "test"),
        ChargePointError::hardware_fault("type", "desc"),
        ChargePointError::timeout("op", 1000),
        ChargePointError::resource_unavailable("resource"),
        ChargePointError::boot_notification_failed("reason"),
        ChargePointError::central_system("test"),
        ChargePointError::validation("field", "msg"),
        ChargePointError::internal("test"),
        ChargePointError::not_supported("feature"),
        ChargePointError::rate_limit_exceeded("op", 10, "minute"),
    ];

    for error in errors {
        assert!(!error.to_string().is_empty());
        let _severity = error.severity();
        let _category = error.category();
        let _recoverable = error.is_recoverable();
    }

    let errors = vec![
        SimulatorError::configuration("test"),
        SimulatorError::charge_point("test"),
        SimulatorError::connection("test"),
        SimulatorError::api_server("test"),
        SimulatorError::scenario_execution("scenario", "message"),
        SimulatorError::scenario_validation("scenario", "message"),
        SimulatorError::fault_injection(1, "test"),
        SimulatorError::meter_simulation("test"),
        SimulatorError::event_handling("test"),
        SimulatorError::websocket("test"),
        SimulatorError::serialization("test"),
        SimulatorError::io("test"),
        SimulatorError::timeout("op", 1000),
        SimulatorError::invalid_state("op", "state"),
        SimulatorError::resource_not_found("type", "id"),
        SimulatorError::validation("field", "message"),
        SimulatorError::external_service("service", "message"),
        SimulatorError::authentication("test"),
        SimulatorError::authorization("test"),
        SimulatorError::rate_limit("op", 10, "minute"),
        SimulatorError::concurrent_operation("test"),
        SimulatorError::internal("test"),
        SimulatorError::not_supported("feature"),
    ];

    for error in errors {
        assert!(!error.to_string().is_empty());
        let _category = error.category();
        let _severity = error.severity();
        let _recoverable = error.is_recoverable();
    }
}

#[test]
fn recoverable_errors_have_a_retry_delay() {
    let errors = vec![
        ChargePointError::connection("x"),
        ChargePointError::timeout("op", 250),
        ChargePointError::rate_limit_exceeded("op", 10, "minute"),
        ChargePointError::hardware_fault("t", "d"),
        ChargePointError::internal("x"),
    ];
    for e in errors {
        assert_eq!(e.is_recoverable(), e.suggested_retry_delay().is_some());
        if e.severity() == ErrorSeverity::Critical {
            assert!(!e.is_recoverable());
        }
    }
}

#[test]
fn extended_error_text_shows_source_and_context() {
    let e = ExtendedError::with_context(
        ChargePointError::internal("oops"),
        ErrorContext::with_source("a.rs:1").add_context("k", "v").add_context("k", "w"),
    );
    let text = e.to_string();
    assert!(text.starts_with('['));
    assert_eq!(&text[37..], r#"] Internal error: oops (source: a.rs:1) context: {"k": "w"}"#);

    let s = ExtendedSimulatorError::with_context(
        SimulatorError::io("disk"),
        SimulatorContext::new().with_request_id("r1"),
    );
    assert_eq!(&s.to_string()[37..], "] I/O error: disk (request: r1)");
}
