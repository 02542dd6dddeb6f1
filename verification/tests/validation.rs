use ocpp_rs::config::{check_value, ConfigDataType, ConfigurationValidator, DecimalReading, KeyConstraints};
use ocpp_rs::numbers::{double_outside_range, parse_i32};
use ocpp_rs::state::{ConnectorStatus, ErrorCode};
use ocpp_rs::time::Timestamp;
use ocpp_rs::types::OcppError;
use ocpp_rs::v16j::{AuthorizeRequest, BootNotificationRequest, StartTransactionRequest};
use ocpp_rs::validation::{validate_connector_id, validate_string_field, Validate};

/// How a value reads as a double, as the standard library parses it.
fn reading(value: &str) -> Option<DecimalReading> {
    value.parse::<f64>().ok().map(|x| DecimalReading { bits: x.to_bits(), shown: x.to_string() })
}

fn message(r: Result<(), OcppError>) -> String {
    match r {
        Err(OcppError::ValidationError { message }) => message,
        other => panic!("expected a validation error, got {:?}", other),
    }
}

#[test]
fn test_authorize_request_validation() {
    let valid_request = AuthorizeRequest { id_tag: "TAG123".to_string() };
    assert!(valid_request.validate().is_ok());

    let empty_tag = AuthorizeRequest { id_tag: "".to_string() };
    assert!(empty_tag.validate().is_err());

    let too_long_tag = AuthorizeRequest { id_tag: "VERYLONGTAGTHATEXCEEDS20CHARACTERS".to_string() };
    assert!(too_long_tag.validate().is_err());
}

#[test]
fn test_boot_notification_validation() {
    let valid_request = BootNotificationRequest {
        charge_point_vendor: "Vendor".to_string(),
        charge_point_model: "Model".to_string(),
        charge_point_serial_number: Some("SN123".to_string()),
        charge_box_serial_number: None,
        firmware_version: Some("1.0.0".to_string()),
        iccid: None,
        imsi: None,
        meter_type: None,
        meter_serial_number: None,
    };
    assert!(valid_request.validate().is_ok());

    let empty_vendor = BootNotificationRequest {
        charge_point_vendor: "".to_string(),
        charge_point_model: "Model".to_string(),
        charge_point_serial_number: None,
        charge_box_serial_number: None,
        firmware_version: None,
        iccid: None,
        imsi: None,
        meter_type: None,
        meter_serial_number: None,
    };
    assert!(empty_vendor.validate().is_err());
}

#[test]
fn test_configuration_validator() {
    let validator = ConfigurationValidator::new();

    assert!(validator.validate_key_value("AllowOfflineTxForUnknownId", "true", reading("true").as_ref()).is_ok());
    assert!(validator.validate_key_value("AllowOfflineTxForUnknownId", "false", reading("false").as_ref()).is_ok());
    assert!(validator.validate_key_value("AllowOfflineTxForUnknownId", "yes", reading("yes").as_ref()).is_err());
    assert!(validator.validate_key_value("HeartbeatInterval", "300", reading("300").as_ref()).is_ok());
    assert!(validator.validate_key_value("HeartbeatInterval", "100000", reading("100000").as_ref()).is_err());
    assert!(validator.validate_key_value("UnknownVendorKey", "somevalue", reading("somevalue").as_ref()).is_ok());
    assert!(validator.is_readonly("NumberOfConnectors"));
    assert!(!validator.is_readonly("HeartbeatInterval"));
}

#[test]
fn test_start_transaction_validation() {
    let now = Timestamp::now();
    let valid_request = StartTransactionRequest {
        connector_id: 1,
        id_tag: "USER123".to_string(),
        meter_start: 12345,
        timestamp: now,
        reservation_id: None,
    };
    assert!(valid_request.validate().is_ok());

    let invalid_connector = StartTransactionRequest {
        connector_id: 0,
        id_tag: "USER123".to_string(),
        meter_start: 12345,
        timestamp: now,
        reservation_id: None,
    };
    assert!(invalid_connector.validate().is_err());

    let negative_meter = StartTransactionRequest {
        connector_id: 1,
        id_tag: "USER123".to_string(),
        meter_start: -100,
        timestamp: now,
        reservation_id: None,
    };
    assert!(negative_meter.validate().is_err());
}

#[test]
fn test_connector_id_validation() {
    assert!(validate_connector_id(1, false).is_ok());
    assert!(validate_connector_id(0, true).is_ok());
    assert!(validate_connector_id(0, false).is_err());
    assert!(validate_connector_id(101, false).is_err());
}

#[test]
fn test_string_field_validation() {
    assert!(validate_string_field("test", "hello", Some(3), Some(10)).is_ok());
    assert!(validate_string_field("test", "hi", Some(3), Some(10)).is_err());
    assert!(validate_string_field("test", "verylongstring", Some(3), Some(10)).is_err());
}

#[test]
fn validation_messages_are_exact() {
    assert_eq!(message(validate_connector_id(0, false)), "Connector ID must be greater than 0");
    assert_eq!(message(validate_connector_id(101, true)), "Connector ID cannot be greater than 100");
    assert_eq!(message(validate_string_field("test", "hi", Some(3), None)), "test must be at least 3 characters long");
    assert_eq!(message(validate_string_field("test", "hello!", None, Some(5))), "test cannot be longer than 5 characters");
    assert_eq!(
        message(AuthorizeRequest { id_tag: "".to_string() }.validate()),
        "idTag cannot be empty"
    );
}

#[test]
fn configuration_messages_are_exact() {
    let v = ConfigurationValidator::default();
    assert_eq!(
        message(v.validate_key_value("HeartbeatInterval", "100000", reading("100000").as_ref())),
        "Value 100000 for key 'HeartbeatInterval' is out of range (0-86400)"
    );
    assert_eq!(
        message(v.validate_key_value("BlinkRepeat", "0", reading("0").as_ref())),
        "Value 0 for key 'BlinkRepeat' is out of range (1-100)"
    );
    assert_eq!(
        message(v.validate_key_value("BlinkRepeat", "abc", reading("abc").as_ref())),
        "Value 'abc' for key 'BlinkRepeat' is not a valid integer"
    );
    assert_eq!(
        message(v.validate_key_value("LocalPreAuthorize", "yes", reading("yes").as_ref())),
        "Invalid value 'yes' for key 'LocalPreAuthorize'"
    );
    let long = "x".repeat(501);
    assert_eq!(
        message(v.validate_key_value("StopTxnSampledData", &long, reading(&long).as_ref())),
        "Value for key 'StopTxnSampledData' is too long (max: 500)"
    );
    assert!(v.validate_key_value("StopTxnSampledData", "Energy.Active.Import.Register", reading("Energy.Active.Import.Register").as_ref()).is_ok());
    assert!(v.validate_key_value("HeartbeatInterval", "+60", reading("+60").as_ref()).is_ok());
    assert!(v.validate_key_value("HeartbeatInterval", "-1", reading("-1").as_ref()).is_err());
    assert!(v.is_readonly("SupportedFeatureProfiles"));
    assert!(!v.is_readonly("UnknownVendorKey"));
}

#[test]
fn added_keys_govern_their_values() {
    let mut v = ConfigurationValidator::new();
    v.add_key(
        "MaxPower",
        KeyConstraints {
            readonly: true,
            min_length: Some(1),
            max_length: None,
            valid_values: None,
            numeric_range: Some((0, 22)),
            data_type: ConfigDataType::Decimal,
        },
    );
    assert!(v.is_readonly("MaxPower"));
    assert!(v.validate_key_value("MaxPower", "11.5", reading("11.5").as_ref()).is_ok());
    assert!(v.validate_key_value("MaxPower", "2.2e1", reading("2.2e1").as_ref()).is_ok());
    assert_eq!(message(v.validate_key_value("MaxPower", "22.5", reading("22.5").as_ref())), "Value 22.5 for key 'MaxPower' is out of range (0-22)");
    assert_eq!(message(v.validate_key_value("MaxPower", "ten", reading("ten").as_ref())), "Value 'ten' for key 'MaxPower' is not a valid decimal");
    assert_eq!(message(v.validate_key_value("MaxPower", "", reading("").as_ref())), "Value for key 'MaxPower' is too short (min: 1)");

    // Replacing the key's constraints replaces them entirely.
    v.add_key(
        "MaxPower",
        KeyConstraints {
            readonly: false,
            min_length: None,
            max_length: None,
            valid_values: None,
            numeric_range: None,
            data_type: ConfigDataType::String,
        },
    );
    assert!(!v.is_readonly("MaxPower"));
    assert!(v.validate_key_value("MaxPower", "ten", reading("ten").as_ref()).is_ok());

    v.add_key(
        "ClockTime",
        KeyConstraints {
            readonly: false,
            min_length: None,
            max_length: None,
            valid_values: None,
            numeric_range: None,
            data_type: ConfigDataType::DateTime,
        },
    );
    assert!(v.validate_key_value("ClockTime", "2024-01-01T12:00:00Z", reading("2024-01-01T12:00:00Z").as_ref()).is_ok());
    assert_eq!(
        message(v.validate_key_value("ClockTime", "yesterday", reading("yesterday").as_ref())),
        "Value 'yesterday' for key 'ClockTime' is not a valid ISO 8601 timestamp"
    );
}

#[test]
fn boolean_type_accepts_only_true_and_false() {
    let c = KeyConstraints {
        readonly: false,
        min_length: None,
        max_length: None,
        valid_values: None,
        numeric_range: None,
        data_type: ConfigDataType::Boolean,
    };
    assert!(check_value("K", "true", &c, false, None).is_ok());
    assert!(check_value("K", "false", &c, false, None).is_ok());
    assert_eq!(
        message(check_value("K", "TRUE", &c, false, None)),
        "Value 'TRUE' for key 'K' is not a valid boolean (true/false)"
    );
}

#[test]
fn integers_read_as_i32_does() {
    assert_eq!(parse_i32("42"), Some(42));
    assert_eq!(parse_i32("-2147483648"), Some(i32::MIN));
    assert_eq!(parse_i32("2147483648"), None);
    assert_eq!(parse_i32("+7"), Some(7));
    assert_eq!(parse_i32("-"), None);
    assert_eq!(parse_i32(" 1"), None);
    assert_eq!(parse_i32(""), None);
}

#[test]
fn decimals_are_checked_as_doubles() {
    let outside = |v: &str, lo: i64, hi: i64| double_outside_range(v.parse::<f64>().unwrap().to_bits(), lo, hi);
    assert!(!outside("1.5", 0, 2));
    assert!(outside("2.0000001", 0, 2));
    assert!(outside("-0.5", 0, 2));
    assert!(outside("1e400", 0, 2));
    assert!(outside("-inf", 0, 2));
    assert!(!outside("1e-400", 0, 2));
    assert!(!outside("-1e-400", 0, 2));
    assert!(!outside("NaN", 0, 2));
    assert!(!outside("86400.000000000001", 0, 86400));
    assert!(outside("86400.00000001", 0, 86400));
    assert!(!outside("-3", -3, 3));
    assert!(outside("-3.0000001", -3, 3));
    assert!(outside("1e19", 0, i64::MAX));
    assert!(!outside("0.000001", 0, 1));
    assert!(outside("-0.000001", 0, 1));

    let mut v = ConfigurationValidator::new();
    v.add_key(
        "Interval",
        KeyConstraints {
            readonly: false,
            min_length: None,
            max_length: None,
            valid_values: None,
            numeric_range: Some((0, 86400)),
            data_type: ConfigDataType::Decimal,
        },
    );
    assert!(v.validate_key_value("Interval", "86400.000000000001", reading("86400.000000000001").as_ref()).is_ok());
    assert!(v.validate_key_value("Interval", "-1e-400", reading("-1e-400").as_ref()).is_ok());
    assert_eq!(
        message(v.validate_key_value("Interval", "1e5", reading("1e5").as_ref())),
        "Value 100000 for key 'Interval' is out of range (0-86400)"
    );
    assert_eq!(
        message(v.validate_key_value("Interval", "ten", reading("ten").as_ref())),
        "Value 'ten' for key 'Interval' is not a valid decimal"
    );
}

#[test]
fn status_types_compare() {
    assert_ne!(ConnectorStatus::Available, ConnectorStatus::Faulted);
    assert_eq!(ErrorCode::NoError, ErrorCode::NoError);
}
