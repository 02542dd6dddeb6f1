//! OCPP 1.6J request messages that a charge point sends.

use vstd::prelude::*;
use crate::state::{ConnectorStatus, ErrorCode};
use crate::time::Timestamp;

verus! {

/// Authorize.req
#[derive(Debug, Clone)]
pub struct AuthorizeRequest {
    pub id_tag: String,
}

/// BootNotification.req
#[derive(Debug, Clone)]
pub struct BootNotificationRequest {
    pub charge_point_vendor: String,
    pub charge_point_model: String,
    pub charge_point_serial_number: Option<String>,
    pub charge_box_serial_number: Option<String>,
    pub firmware_version: Option<String>,
    pub iccid: Option<String>,
    pub imsi: Option<String>,
    pub meter_type: Option<String>,
    pub meter_serial_number: Option<String>,
}

/// StartTransaction.req
#[derive(Debug, Clone)]
pub struct StartTransactionRequest {
    pub connector_id: u32,
    pub id_tag: String,
    pub meter_start: i32,
    pub timestamp: Timestamp,
    pub reservation_id: Option<i32>,
}

/// StopTransaction.req
#[derive(Debug, Clone)]
pub struct StopTransactionRequest {
    pub id_tag: Option<String>,
    pub meter_stop: i32,
    pub timestamp: Timestamp,
    pub transaction_id: i32,
    pub reason: Option<String>,
}

/// StatusNotification.req
#[derive(Debug, Clone)]
pub struct StatusNotificationRequest {
    pub connector_id: u32,
    pub error_code: ErrorCode,
    pub info: Option<String>,
    pub status: ConnectorStatus,
    pub timestamp: Option<Timestamp>,
    pub vendor_id: Option<String>,
    pub vendor_error_code: Option<String>,
}

/// One sampled value of a meter reading.
#[derive(Debug, Clone)]
pub struct SampledValue {
    pub value: String,
    pub measurand: Option<String>,
    pub unit: Option<String>,
}

/// A meter reading: a time and the values sampled at it.
#[derive(Debug, Clone)]
pub struct MeterValue {
    pub timestamp: Timestamp,
    pub sampled_values: Vec<SampledValue>,
}

/// MeterValues.req
#[derive(Debug, Clone)]
pub struct MeterValuesRequest {
    pub connector_id: u32,
    pub transaction_id: Option<i32>,
    pub meter_values: Vec<MeterValue>,
}

} // verus!
