//! The central system's server: its configuration, what it keeps of each
//! WebSocket connection, and which upgrade requests it admits.

use vstd::prelude::*;
use crate::ids::new_uuid;
use crate::json::{json_quoted, JsonValue};
use crate::text::{decimal, u64_to_text};
use crate::time::Timestamp;
use crate::validation::byte_len;

verus! {

/// A `std::path::PathBuf`, carried as an opaque value.
#[verifier::external_type_specification]
#[verifier::external_body]
pub struct ExPathBuf(std::path::PathBuf);

/// Server configuration.
#[derive(Debug, Clone)]
pub struct ServerConfig {
    /// Server bind address
    pub bind_address: String,
    /// WebSocket port
    pub websocket_port: u16,
    /// HTTP API port
    pub http_port: u16,
    /// Metrics port
    pub metrics_port: u16,
    /// Maximum concurrent connections
    pub max_connections: usize,
    /// Connection timeout in seconds
    pub connection_timeout: u64,
    /// Enable TLS
    pub tls_enabled: bool,
    /// TLS certificate path
    pub tls_cert_path: Option<std::path::PathBuf>,
    /// TLS private key path
    pub tls_key_path: Option<std::path::PathBuf>,
}

impl Default for ServerConfig {
    fn default() -> (r: Self)
        ensures
            r.bind_address@ == "0.0.0.0"@,
            r.websocket_port == 8080,
            r.http_port == 3000,
            r.metrics_port == 9090,
            r.max_connections == 1000,
            r.connection_timeout == 30,
            !r.tls_enabled,
            r.tls_cert_path is None,
            r.tls_key_path is None,
    {
        ServerConfig {
            bind_address: String::from_str("0.0.0.0"),
            websocket_port: 8080,
            http_port: 3000,
            metrics_port: 9090,
            max_connections: 1000,
            connection_timeout: 30,
            tls_enabled: false,
            tls_cert_path: None,
            tls_key_path: None,
        }
    }
}

/// What the server keeps of a WebSocket connection.
#[derive(Debug)]
pub struct ConnectionInfo {
    /// Connection ID
    pub id: uuid::Uuid,
    /// Charge point ID
    pub charge_point_id: Option<String>,
    /// Remote address, as `ip:port`
    pub remote_addr: String,
    /// Connected timestamp
    pub connected_at: Timestamp,
    /// Last activity timestamp
    pub last_activity: Timestamp,
}

impl ConnectionInfo {
    /// A connection from `remote_addr`, opened now, with a fresh random ID and
    /// no charge point yet.
    pub fn new(remote_addr: String) -> (r: Self)
        ensures
            r.remote_addr == remote_addr,
            r.charge_point_id is None,
            r.last_activity == r.connected_at,
    {
        let now = Timestamp::now();
        ConnectionInfo { id: new_uuid(), charge_point_id: None, remote_addr, connected_at: now, last_activity: now }
    }

    /// Records activity now: the last activity becomes a fresh reading of the
    /// clock (its nanoseconds in chrono's range); nothing else changes.
    pub fn update_activity(&mut self)
        ensures
            final(self).last_activity.nanos < 2_000_000_000,
            final(self).id == old(self).id,
            final(self).charge_point_id == old(self).charge_point_id,
            final(self).remote_addr == old(self).remote_addr,
            final(self).connected_at == old(self).connected_at,
    {
        self.last_activity = Timestamp::now();
    }
}

/// The answer to a WebSocket upgrade request.
#[derive(Debug, Clone, Copy, PartialEq, Eq, Structural)]
pub enum UpgradeDecision {
    /// Upgrade with subprotocol `ocpp1.6`
    Accept,
    /// 400, "Invalid charge point ID"
    InvalidChargePointId,
    /// 503, "Connection limit reached"
    ConnectionLimitReached,
}

impl UpgradeDecision {
    /// The HTTP status of a refusal.
    pub open spec fn status_spec(self) -> u16 {
        match self {
            UpgradeDecision::Accept => 101,
            UpgradeDecision::InvalidChargePointId => 400,
            UpgradeDecision::ConnectionLimitReached => 503,
        }
    }

    /// The HTTP status of the answer (101 Switching Protocols for an upgrade).
    pub fn status(&self) -> (r: u16)
        ensures
            r == self.status_spec(),
    {
        match self {
            UpgradeDecision::Accept => 101,
            UpgradeDecision::InvalidChargePointId => 400,
            UpgradeDecision::ConnectionLimitReached => 503,
        }
    }

    /// The body of a refusal; empty for an upgrade.
    pub fn body(&self) -> (r: &'static str)
        ensures
            r@ == match self {
                UpgradeDecision::Accept => ""@,
                UpgradeDecision::InvalidChargePointId => "Invalid charge point ID"@,
                UpgradeDecision::ConnectionLimitReached => "Connection limit reached"@,
            },
    {
        match self {
            UpgradeDecision::Accept => "",
            UpgradeDecision::InvalidChargePointId => "Invalid charge point ID",
            UpgradeDecision::ConnectionLimitReached => "Connection limit reached",
        }
    }
}

/// Which upgrade requests the server admits: a charge point ID of 1 to 20
/// bytes, while fewer than `max_connections` connections are active.
pub open spec fn upgrade_decision_spec(charge_point_id: Seq<char>, active: usize, max_connections: usize) -> UpgradeDecision {
    if byte_len(charge_point_id) == 0 || byte_len(charge_point_id) > 20 {
        UpgradeDecision::InvalidChargePointId
    } else if active >= max_connections {
        UpgradeDecision::ConnectionLimitReached
    } else {
        UpgradeDecision::Accept
    }
}

/// Decides a WebSocket upgrade request for `charge_point_id` while `active`
/// connections are open.
pub fn upgrade_decision(charge_point_id: &str, active: usize, max_connections: usize) -> (r: UpgradeDecision)
    ensures
        r == upgrade_decision_spec(charge_point_id@, active, max_connections),
{
    let n = charge_point_id.len();
    if n == 0 || n > 20 {
        UpgradeDecision::InvalidChargePointId
    } else if active >= max_connections {
        UpgradeDecision::ConnectionLimitReached
    } else {
        UpgradeDecision::Accept
    }
}

/// The server never admits a connection beyond its limit, nor one for a
/// charge point ID that is empty or longer than 20 bytes.
pub proof fn lemma_admission_bounded(charge_point_id: Seq<char>, active: usize, max_connections: usize)
    ensures
        upgrade_decision_spec(charge_point_id, active, max_connections) == UpgradeDecision::Accept
            <==> (active < max_connections && 1 <= byte_len(charge_point_id) <= 20),
{
}

/// The word for a health check's outcome.
pub open spec fn health_word(ok: bool) -> Seq<char> {
    if ok { "healthy"@ } else { "unhealthy"@ }
}

/// The health endpoint's answer: 200 when the database and the metrics are
/// both healthy, 503 otherwise, with a JSON report of each check, the number
/// of open connections and the time.
pub open spec fn health_report_spec(database_ok: bool, metrics_ok: bool, connections: usize, timestamp: Seq<char>) -> (u16, Seq<char>) {
    (
        if database_ok && metrics_ok { 200u16 } else { 503u16 },
        "{\"checks\":{\"database\":"@ + json_quoted(health_word(database_ok)) + ",\"metrics\":"@
            + json_quoted(health_word(metrics_ok)) + "},\"connections\":"@ + decimal(connections as nat)
            + ",\"status\":"@ + json_quoted(health_word(database_ok && metrics_ok)) + ",\"timestamp\":"@
            + json_quoted(timestamp) + "}"@,
    )
}

fn health_word_text(ok: bool) -> (r: String)
    ensures
        r@ == json_quoted(health_word(ok)),
{
    if ok {
        JsonValue::string("healthy").to_string()
    } else {
        JsonValue::string("unhealthy").to_string()
    }
}

/// The health endpoint's status code and JSON body.
pub fn health_report(database_ok: bool, metrics_ok: bool, connections: usize, timestamp: &str) -> (r: (u16, String))
    ensures
        r.0 == health_report_spec(database_ok, metrics_ok, connections, timestamp@).0,
        r.1@ == health_report_spec(database_ok, metrics_ok, connections, timestamp@).1,
{
    let all_ok = database_ok && metrics_ok;
    let mut body = String::from_str("{\"checks\":{\"database\":");
    body.append(health_word_text(database_ok).as_str());
    body.append(",\"metrics\":");
    body.append(health_word_text(metrics_ok).as_str());
    body.append("},\"connections\":");
    body.append(u64_to_text(connections as u64).as_str());
    body.append(",\"status\":");
    body.append(health_word_text(all_ok).as_str());
    body.append(",\"timestamp\":");
    body.append(JsonValue::string(timestamp).to_string().as_str());
    body.append("}");
    (if all_ok { 200 } else { 503 }, body)
}

/// The charge point listing of the HTTP API: no charge points yet.
pub fn charge_point_listing() -> (r: String)
    ensures
        r@ == "{\"charge_points\":[],\"total\":0}"@,
{
    String::from_str("{\"charge_points\":[],\"total\":0}")
}

/// The HTTP API's answer for one charge point: not found, as no charge
/// point is stored yet.
pub fn charge_point_lookup(id: &str) -> (r: (u16, &'static str))
    ensures
        r.0 == 404,
        r.1@ == "Charge point not found"@,
{
    (404, "Charge point not found")
}

} // verus!
