use ocpp_rs::auth::{AuthConfig, AuthService, AuthorizationStatus, RateLimitConfig};
use ocpp_rs::csms_error::CsmsError;
use ocpp_rs::server::{upgrade_decision, ConnectionInfo, ServerConfig, UpgradeDecision};
use ocpp_rs::state::{
    ChargePointState, ChargePointStatus, ConnectorState, ConnectorStatus, ErrorCode, StateManager, TransactionState,
};
use ocpp_rs::time::Timestamp;
use ocpp_rs::transport::TransportError;
use ocpp_rs::types::OcppError;

fn online() -> ChargePointState {
    ChargePointState {
        status: ChargePointStatus::Online,
        last_heartbeat: Some(Timestamp::now()),
        boot_info: None,
        connection_info: None,
    }
}

fn available() -> ConnectorState {
    ConnectorState {
        status: ConnectorStatus::Available,
        error_code: ErrorCode::NoError,
        info: None,
        vendor_error_code: None,
        vendor_id: None,
        last_update: Timestamp::now(),
        transaction_id: None,
    }
}

fn transaction(id: i32, cp: &str) -> TransactionState {
    TransactionState {
        transaction_id: id,
        charge_point_id: cp.to_string(),
        connector_id: 1,
        id_tag: "TAG001".to_string(),
        start_time: Timestamp::now(),
        meter_start: 1000,
        reservation_id: None,
        current_meter_value: Some(1000),
        last_meter_update: Some(Timestamp::now()),
    }
}

#[test]
fn test_server_config_default() {
    let config = ServerConfig::default();
    assert_eq!(config.websocket_port, 8080);
    assert_eq!(config.http_port, 3000);
    assert_eq!(config.max_connections, 1000);
}

#[test]
fn test_connection_info_creation() {
    let addr = "127.0.0.1:12345".to_string();
    let info = ConnectionInfo::new(addr.clone());
    assert_eq!(info.remote_addr, addr);
    assert!(info.charge_point_id.is_none());
}

#[test]
fn upgrade_requests_are_admitted_within_limits() {
    assert_eq!(upgrade_decision("CP001", 0, 1000), UpgradeDecision::Accept);
    assert_eq!(upgrade_decision("", 0, 1000), UpgradeDecision::InvalidChargePointId);
    assert_eq!(upgrade_decision("ABCDEFGHIJKLMNOPQRSTU", 0, 1000), UpgradeDecision::InvalidChargePointId);
    assert_eq!(upgrade_decision("ABCDEFGHIJKLMNOPQRST", 999, 1000), UpgradeDecision::Accept);
    assert_eq!(upgrade_decision("CP001", 1000, 1000), UpgradeDecision::ConnectionLimitReached);
    assert_eq!(UpgradeDecision::ConnectionLimitReached.status(), 503);
    assert_eq!(UpgradeDecision::InvalidChargePointId.body(), "Invalid charge point ID");
}

#[test]
fn test_auth_service_creation() {
    let config = AuthConfig::default();
    assert!(config.enabled);
    assert_eq!(config.jwt_secret, "change-me-in-production");
    assert_eq!(config.token_expiry, 86400);
    assert!(!config.api_key_enabled);
    let limits = RateLimitConfig::default();
    assert_eq!(limits.requests_per_minute, 1000);
    assert_eq!(limits.burst_capacity, 100);
    let service = AuthService::new(config);
    assert_eq!(service.validate_api_key("anything").unwrap(), false);
}

#[test]
fn test_authenticate_charge_point() {
    let config = AuthConfig::default();
    let service = AuthService::new(config);

    let result = service.authenticate_charge_point("CP001", None).unwrap();
    assert!(result.authenticated);
    assert_eq!(result.charge_point_id, "CP001");
    assert_eq!(result.permissions, vec!["charge".to_string()]);

    let mut open = AuthConfig::default();
    open.enabled = false;
    let service = AuthService::new(open);
    let result = service.authenticate_charge_point("CP002", Some("secret")).unwrap();
    assert_eq!(result.permissions, vec!["*".to_string()]);
    let info = service.authorize_id_tag("TAG").unwrap();
    assert_eq!(info.status, AuthorizationStatus::Accepted);
    assert!(info.parent_id_tag.is_none() && info.expiry_date.is_none());
}

#[test]
fn test_state_manager_creation() {
    let manager = StateManager::new();
    let stats = manager.get_stats();
    assert_eq!(stats.charge_points, 0);
    assert_eq!(stats.connectors, 0);
    assert_eq!(stats.active_transactions, 0);
}

#[test]
fn test_charge_point_state_management() {
    let mut manager = StateManager::new();
    manager.update_charge_point_state("CP001", online()).unwrap();

    let retrieved = manager.get_charge_point_state("CP001").unwrap();
    assert_eq!(retrieved.status, ChargePointStatus::Online);
}

#[test]
fn test_connector_state_management() {
    let mut manager = StateManager::new();
    manager.update_connector_state("CP001", 1, available()).unwrap();

    let retrieved = manager.get_connector_state("CP001", 1).unwrap();
    assert_eq!(retrieved.status, ConnectorStatus::Available);
}

#[test]
fn test_transaction_management() {
    let mut manager = StateManager::new();
    manager.start_transaction(123, transaction(123, "CP001")).unwrap();

    let retrieved = manager.get_transaction_state(123).unwrap();
    assert_eq!(retrieved.transaction_id, 123);
    assert_eq!(retrieved.charge_point_id, "CP001");

    let stopped = manager.stop_transaction(123).unwrap();
    assert!(stopped.is_some());
    assert!(manager.get_transaction_state(123).is_none());
}

#[test]
fn test_config_cache() {
    let mut manager = StateManager::new();
    manager.cache_config_value("CP001", "HeartbeatInterval", "60").unwrap();

    let value = manager.get_cached_config_value("CP001", "HeartbeatInterval");
    assert_eq!(value, Some("60".to_string()));

    let missing = manager.get_cached_config_value("CP001", "MissingKey");
    assert_eq!(missing, None);
}

#[test]
fn test_clear_charge_point_state() {
    let mut manager = StateManager::new();
    manager.update_charge_point_state("CP001", online()).unwrap();
    manager.update_connector_state("CP001", 1, available()).unwrap();
    manager.cache_config_value("CP001", "TestKey", "TestValue").unwrap();

    manager.clear_charge_point_state("CP001").unwrap();

    assert!(manager.get_charge_point_state("CP001").is_none());
    assert!(manager.get_connector_state("CP001", 1).is_none());
    assert!(manager.get_cached_config_value("CP001", "TestKey").is_none());
}

#[test]
fn clearing_one_charge_point_keeps_the_others() {
    let mut manager = StateManager::new();
    manager.update_charge_point_state("CP001", online()).unwrap();
    manager.update_charge_point_state("CP002", online()).unwrap();
    manager.update_connector_state("CP001", 1, available()).unwrap();
    manager.update_connector_state("CP001", 2, available()).unwrap();
    manager.update_connector_state("CP002", 1, available()).unwrap();
    manager.cache_config_value("CP002", "K", "V").unwrap();
    manager.start_transaction(7, transaction(7, "CP001")).unwrap();

    manager.clear_charge_point_state("CP001").unwrap();

    let stats = manager.get_stats();
    assert_eq!(stats.charge_points, 1);
    assert_eq!(stats.connectors, 1);
    assert_eq!(stats.active_transactions, 1);
    assert!(manager.get_connector_state("CP002", 1).is_some());
    assert_eq!(manager.get_cached_config_value("CP002", "K"), Some("V".to_string()));
}

#[test]
fn later_writes_replace_earlier_ones() {
    let mut manager = StateManager::new();
    manager.cache_config_value("CP001", "K", "1").unwrap();
    manager.cache_config_value("CP001", "K", "2").unwrap();
    manager.cache_config_value("CP001", "L", "3").unwrap();
    assert_eq!(manager.get_cached_config_value("CP001", "K"), Some("2".to_string()));
    assert_eq!(manager.get_cached_config_value("CP001", "L"), Some("3".to_string()));
    manager.start_transaction(1, transaction(1, "A")).unwrap();
    manager.start_transaction(2, transaction(2, "B")).unwrap();
    let mut ids: Vec<i32> = manager.get_active_transactions().iter().map(|(id, _)| *id).collect();
    ids.sort();
    assert_eq!(ids, vec![1, 2]);
    assert!(manager.stop_transaction(3).unwrap().is_none());
}

#[test]
fn csms_errors_convert_and_display() {
    let e = CsmsError::from(OcppError::ValidationError { message: "bad".to_string() });
    assert!(matches!(e, CsmsError::Validation { ref message } if message == "bad"));
    let e = CsmsError::from(OcppError::InvalidMessageType(9));
    assert_eq!(e.to_string(), "Internal error: Invalid message type: 9");
    let e = CsmsError::from(TransportError::Timeout { timeout_secs: 5 });
    assert_eq!(e.to_string(), "Transport error: Connection timeout after 5 seconds");
    let e = CsmsError::ConnectorNotAvailable { charge_point_id: "CP1".to_string(), connector_id: 2 };
    assert_eq!(e.to_string(), "Connector not available: CP1/2");
    let e = CsmsError::TransactionNotFound { transaction_id: -4 };
    assert_eq!(e.to_string(), "Transaction not found: -4");
}

#[test]
fn health_report_reflects_the_checks() {
    let (code, body) = ocpp_rs::server::health_report(true, true, 3, "T");
    assert_eq!(code, 200);
    assert_eq!(
        body,
        r#"{"checks":{"database":"healthy","metrics":"healthy"},"connections":3,"status":"healthy","timestamp":"T"}"#
    );
    let (code, body) = ocpp_rs::server::health_report(true, false, 0, "T");
    assert_eq!(code, 503);
    assert!(body.contains(r#""metrics":"unhealthy""#) && body.contains(r#""status":"unhealthy""#));
    assert_eq!(ocpp_rs::server::charge_point_listing(), r#"{"charge_points":[],"total":0}"#);
    assert_eq!(ocpp_rs::server::charge_point_lookup("X"), (404, "Charge point not found"));
}
