//! State bookkeeping of the CSMS: what is known of each charge point, each
//! connector and each running transaction.

use vstd::prelude::*;
use crate::csms_error::CsmsError;
use crate::json::opt_text;
use crate::text::str_eq;
use crate::time::Timestamp;
use dashmap::DashMap;

verus! {

/// Connector status.
#[derive(Debug, Clone, Copy, PartialEq, Eq, Structural)]
pub enum ConnectorStatus {
    /// Available for new transaction
    Available,
    /// Preparing for transaction
    Preparing,
    /// Charging in progress
    Charging,
    /// Suspended by EV
    SuspendedEV,
    /// Suspended by EVSE
    SuspendedEVSE,
    /// Transaction finishing
    Finishing,
    /// Reserved
    Reserved,
    /// Out of order
    Faulted,
    /// Unavailable
    Unavailable,
}

/// Connector error code.
#[derive(Debug, Clone, Copy, PartialEq, Eq, Structural)]
pub enum ErrorCode {
    NoError,
    ConnectorLockFailure,
    EVCommunicationError,
    GroundFailure,
    HighTemperature,
    InternalError,
    LocalListConflict,
    OtherError,
    OverCurrentFailure,
    OverVoltage,
    PowerMeterFailure,
    PowerSwitchFailure,
    ReaderFailure,
    ResetFailure,
    UnderVoltage,
    WeakSignal,
}

impl ConnectorStatus {
    /// The status's OCPP name.
    pub open spec fn name(self) -> Seq<char> {
        match self {
            ConnectorStatus::Available => "Available"@,
            ConnectorStatus::Preparing => "Preparing"@,
            ConnectorStatus::Charging => "Charging"@,
            ConnectorStatus::SuspendedEV => "SuspendedEV"@,
            ConnectorStatus::SuspendedEVSE => "SuspendedEVSE"@,
            ConnectorStatus::Finishing => "Finishing"@,
            ConnectorStatus::Reserved => "Reserved"@,
            ConnectorStatus::Faulted => "Faulted"@,
            ConnectorStatus::Unavailable => "Unavailable"@,
        }
    }

    /// The status's OCPP name.
    pub fn as_str(&self) -> (r: &'static str)
        ensures
            r@ == self.name(),
    {
        match self {
            ConnectorStatus::Available => "Available",
            ConnectorStatus::Preparing => "Preparing",
            ConnectorStatus::Charging => "Charging",
            ConnectorStatus::SuspendedEV => "SuspendedEV",
            ConnectorStatus::SuspendedEVSE => "SuspendedEVSE",
            ConnectorStatus::Finishing => "Finishing",
            ConnectorStatus::Reserved => "Reserved",
            ConnectorStatus::Faulted => "Faulted",
            ConnectorStatus::Unavailable => "Unavailable",
        }
    }
}

impl ErrorCode {
    /// The code's OCPP name.
    pub open spec fn name(self) -> Seq<char> {
        match self {
            ErrorCode::NoError => "NoError"@,
            ErrorCode::ConnectorLockFailure => "ConnectorLockFailure"@,
            ErrorCode::EVCommunicationError => "EVCommunicationError"@,
            ErrorCode::GroundFailure => "GroundFailure"@,
            ErrorCode::HighTemperature => "HighTemperature"@,
            ErrorCode::InternalError => "InternalError"@,
            ErrorCode::LocalListConflict => "LocalListConflict"@,
            ErrorCode::OtherError => "OtherError"@,
            ErrorCode::OverCurrentFailure => "OverCurrentFailure"@,
            ErrorCode::OverVoltage => "OverVoltage"@,
            ErrorCode::PowerMeterFailure => "PowerMeterFailure"@,
            ErrorCode::PowerSwitchFailure => "PowerSwitchFailure"@,
            ErrorCode::ReaderFailure => "ReaderFailure"@,
            ErrorCode::ResetFailure => "ResetFailure"@,
            ErrorCode::UnderVoltage => "UnderVoltage"@,
            ErrorCode::WeakSignal => "WeakSignal"@,
        }
    }

    /// The code's OCPP name.
    pub fn as_str(&self) -> (r: &'static str)
        ensures
            r@ == self.name(),
    {
        match self {
            ErrorCode::NoError => "NoError",
            ErrorCode::ConnectorLockFailure => "ConnectorLockFailure",
            ErrorCode::EVCommunicationError => "EVCommunicationError",
            ErrorCode::GroundFailure => "GroundFailure",
            ErrorCode::HighTemperature => "HighTemperature",
            ErrorCode::InternalError => "InternalError",
            ErrorCode::LocalListConflict => "LocalListConflict",
            ErrorCode::OtherError => "OtherError",
            ErrorCode::OverCurrentFailure => "OverCurrentFailure",
            ErrorCode::OverVoltage => "OverVoltage",
            ErrorCode::PowerMeterFailure => "PowerMeterFailure",
            ErrorCode::PowerSwitchFailure => "PowerSwitchFailure",
            ErrorCode::ReaderFailure => "ReaderFailure",
            ErrorCode::ResetFailure => "ResetFailure",
            ErrorCode::UnderVoltage => "UnderVoltage",
            ErrorCode::WeakSignal => "WeakSignal",
        }
    }
}

/// A `dashmap::DashMap`, the concurrent map the state is kept in.
#[verifier::external_type_specification]
#[verifier::external_body]
#[verifier::reject_recursive_types(K)]
#[verifier::reject_recursive_types(V)]
#[verifier::reject_recursive_types(S)]
pub struct ExDashMap<K, V, S>(dashmap::DashMap<K, V, S>);

/// Charge point status.
#[derive(Debug, Clone, Copy, PartialEq, Eq, Structural)]
pub enum ChargePointStatus {
    /// Connected and operational
    Online,
    /// Disconnected or not responding
    Offline,
    /// Registered but not yet operational
    Pending,
    /// In error state
    Faulted,
}

/// A copy of an optional text.
fn clone_text(s: &Option<String>) -> (r: Option<String>)
    ensures
        r == *s,
{
    match s {
        Some(t) => Some(t.clone()),
        None => None,
    }
}

/// Boot notification information.
#[derive(Debug)]
pub struct BootInfo {
    /// Charge point vendor
    pub vendor: String,
    /// Charge point model
    pub model: String,
    /// Serial number
    pub serial_number: Option<String>,
    /// Firmware version
    pub firmware_version: Option<String>,
    /// Boot timestamp
    pub boot_time: Timestamp,
}

impl Clone for BootInfo {
    fn clone(&self) -> (r: Self)
        ensures
            r == *self,
    {
        BootInfo {
            vendor: self.vendor.clone(),
            model: self.model.clone(),
            serial_number: clone_text(&self.serial_number),
            firmware_version: clone_text(&self.firmware_version),
            boot_time: self.boot_time,
        }
    }
}

/// Connection information of a charge point.
#[derive(Debug)]
pub struct ConnectionInfo {
    /// Connection ID
    pub connection_id: uuid::Uuid,
    /// Remote address
    pub remote_address: String,
    /// Connected timestamp
    pub connected_at: Timestamp,
    /// Protocol version
    pub protocol_version: String,
}

impl Clone for ConnectionInfo {
    fn clone(&self) -> (r: Self)
        ensures
            r == *self,
    {
        ConnectionInfo {
            connection_id: self.connection_id,
            remote_address: self.remote_address.clone(),
            connected_at: self.connected_at,
            protocol_version: self.protocol_version.clone(),
        }
    }
}

/// Charge point state.
#[derive(Debug)]
pub struct ChargePointState {
    /// Current status
    pub status: ChargePointStatus,
    /// Last heartbeat timestamp
    pub last_heartbeat: Option<Timestamp>,
    /// Boot notification data
    pub boot_info: Option<BootInfo>,
    /// Connection information
    pub connection_info: Option<ConnectionInfo>,
}

impl Clone for ChargePointState {
    fn clone(&self) -> (r: Self)
        ensures
            r == *self,
    {
        ChargePointState {
            status: self.status,
            last_heartbeat: self.last_heartbeat,
            boot_info: match &self.boot_info {
                Some(b) => Some(b.clone()),
                None => None,
            },
            connection_info: match &self.connection_info {
                Some(c) => Some(c.clone()),
                None => None,
            },
        }
    }
}

/// Connector key for indexing: a charge point and one of its connectors.
#[derive(Debug, PartialEq, Eq, Hash)]
pub struct ConnectorKey {
    /// Charge point ID
    pub charge_point_id: String,
    /// Connector ID
    pub connector_id: u32,
}

impl ConnectorKey {
    /// The key as plain values.
    pub open spec fn spec_key(self) -> (Seq<char>, u32) {
        (self.charge_point_id@, self.connector_id)
    }
}

impl Clone for ConnectorKey {
    fn clone(&self) -> (r: Self)
        ensures
            r == *self,
    {
        ConnectorKey { charge_point_id: self.charge_point_id.clone(), connector_id: self.connector_id }
    }
}

/// Connector state.
#[derive(Debug)]
pub struct ConnectorState {
    /// Current status
    pub status: ConnectorStatus,
    /// Error code
    pub error_code: ErrorCode,
    /// Additional information
    pub info: Option<String>,
    /// Vendor error code
    pub vendor_error_code: Option<String>,
    /// Vendor ID
    pub vendor_id: Option<String>,
    /// Last status update timestamp
    pub last_update: Timestamp,
    /// Current transaction ID
    pub transaction_id: Option<i32>,
}

impl Clone for ConnectorState {
    fn clone(&self) -> (r: Self)
        ensures
            r == *self,
    {
        ConnectorState {
            status: self.status,
            error_code: self.error_code,
            info: clone_text(&self.info),
            vendor_error_code: clone_text(&self.vendor_error_code),
            vendor_id: clone_text(&self.vendor_id),
            last_update: self.last_update,
            transaction_id: self.transaction_id,
        }
    }
}

/// Transaction state.
#[derive(Debug)]
pub struct TransactionState {
    /// Transaction ID
    pub transaction_id: i32,
    /// Charge point ID
    pub charge_point_id: String,
    /// Connector ID
    pub connector_id: u32,
    /// ID tag that started the transaction
    pub id_tag: String,
    /// Start timestamp
    pub start_time: Timestamp,
    /// Start meter value in Wh
    pub meter_start: i32,
    /// Reservation ID (if applicable)
    pub reservation_id: Option<i32>,
    /// Current meter value
    pub current_meter_value: Option<i32>,
    /// Last meter value update
    pub last_meter_update: Option<Timestamp>,
}

impl Clone for TransactionState {
    fn clone(&self) -> (r: Self)
        ensures
            r == *self,
    {
        TransactionState {
            transaction_id: self.transaction_id,
            charge_point_id: self.charge_point_id.clone(),
            connector_id: self.connector_id,
            id_tag: self.id_tag.clone(),
            start_time: self.start_time,
            meter_start: self.meter_start,
            reservation_id: self.reservation_id,
            current_meter_value: self.current_meter_value,
            last_meter_update: self.last_meter_update,
        }
    }
}

/// State statistics.
#[derive(Debug, Clone, Copy, PartialEq, Eq, Structural)]
pub struct StateStats {
    /// Number of charge points tracked
    pub charge_points: usize,
    /// Number of connectors tracked
    pub connectors: usize,
    /// Number of active transactions
    pub active_transactions: usize,
}

/// What a map of charge point states holds, by charge point ID.
pub uninterp spec fn charge_point_entries(m: DashMap<String, ChargePointState>) -> Map<Seq<char>, ChargePointState>;

/// What a map of connector states holds, by charge point ID and connector ID.
pub uninterp spec fn connector_entries(m: DashMap<ConnectorKey, ConnectorState>) -> Map<(Seq<char>, u32), ConnectorState>;

/// What a map of transaction states holds, by transaction ID.
pub uninterp spec fn transaction_entries(m: DashMap<i32, TransactionState>) -> Map<i32, TransactionState>;

/// What a map of configuration values holds, by key.
pub uninterp spec fn config_entries(m: DashMap<String, String>) -> Map<Seq<char>, Seq<char>>;

/// What the configuration cache holds: by charge point ID, the configuration
/// values of that charge point.
pub uninterp spec fn cache_entries(m: DashMap<String, DashMap<String, String>>) -> Map<Seq<char>, Map<Seq<char>, Seq<char>>>;

/// `DashMap::new`: an empty map.
#[verifier::external_body]
fn charge_point_map_new() -> (r: DashMap<String, ChargePointState>)
    ensures
        charge_point_entries(r) =~= Map::empty(),
{
    DashMap::new()
}

/// `DashMap::insert`: the key now maps to the value, replacing what it had.
#[verifier::external_body]
fn charge_point_map_insert(m: &mut DashMap<String, ChargePointState>, key: &str, value: ChargePointState)
    ensures
        charge_point_entries(*final(m)) == charge_point_entries(*old(m)).insert(key@, value),
{
    m.insert(key.to_string(), value);
}

/// `DashMap::get`, then a clone of the value found.
#[verifier::external_body]
fn charge_point_map_get(m: &DashMap<String, ChargePointState>, key: &str) -> (r: Option<ChargePointState>)
    ensures
        r == charge_point_entries(*m).get(key@),
{
    m.get(key).map(|e| e.value().clone())
}

/// `DashMap::remove`: the key's value, which leaves the map.
#[verifier::external_body]
fn charge_point_map_remove(m: &mut DashMap<String, ChargePointState>, key: &str) -> (r: Option<ChargePointState>)
    ensures
        r == charge_point_entries(*old(m)).get(key@),
        charge_point_entries(*final(m)) == charge_point_entries(*old(m)).remove(key@),
{
    m.remove(key).map(|(_, v)| v)
}

/// `DashMap::len`: the number of entries.
#[verifier::external_body]
fn charge_point_map_len(m: &DashMap<String, ChargePointState>) -> (r: usize)
    ensures
        r == charge_point_entries(*m).len(),
{
    m.len()
}

/// `DashMap::new`: an empty map.
#[verifier::external_body]
fn connector_map_new() -> (r: DashMap<ConnectorKey, ConnectorState>)
    ensures
        connector_entries(r) =~= Map::empty(),
{
    DashMap::new()
}

/// `DashMap::insert`: the key now maps to the value, replacing what it had.
#[verifier::external_body]
fn connector_map_insert(m: &mut DashMap<ConnectorKey, ConnectorState>, key: ConnectorKey, value: ConnectorState)
    ensures
        connector_entries(*final(m)) == connector_entries(*old(m)).insert(key.spec_key(), value),
{
    m.insert(key, value);
}

/// `DashMap::get`, then a clone of the value found.
#[verifier::external_body]
fn connector_map_get(m: &DashMap<ConnectorKey, ConnectorState>, key: &ConnectorKey) -> (r: Option<ConnectorState>)
    ensures
        r == connector_entries(*m).get(key.spec_key()),
{
    m.get(key).map(|e| e.value().clone())
}

/// `DashMap::remove`: the key leaves the map.
#[verifier::external_body]
fn connector_map_remove(m: &mut DashMap<ConnectorKey, ConnectorState>, key: &ConnectorKey)
    ensures
        connector_entries(*final(m)) == connector_entries(*old(m)).remove(key.spec_key()),
{
    m.remove(key);
}

/// `DashMap::len`: the number of entries.
#[verifier::external_body]
fn connector_map_len(m: &DashMap<ConnectorKey, ConnectorState>) -> (r: usize)
    ensures
        r == connector_entries(*m).len(),
{
    m.len()
}

/// `DashMap::iter`, each entry's key cloned: every key of the map, once
/// each, in the order the shards are walked.
#[verifier::external_body]
fn connector_map_keys(m: &DashMap<ConnectorKey, ConnectorState>) -> (r: Vec<ConnectorKey>)
    ensures
        forall|i: int| 0 <= i < r@.len() ==> connector_entries(*m).contains_key(#[trigger] r@[i].spec_key()),
        forall|k: (Seq<char>, u32)| #[trigger] connector_entries(*m).contains_key(k)
            ==> exists|i: int| 0 <= i < r@.len() && r@[i].spec_key() == k,
{
    m.iter().map(|e| e.key().clone()).collect()
}

/// `DashMap::new`: an empty map.
#[verifier::external_body]
fn transaction_map_new() -> (r: DashMap<i32, TransactionState>)
    ensures
        transaction_entries(r) =~= Map::empty(),
{
    DashMap::new()
}

/// `DashMap::insert`: the key now maps to the value, replacing what it had.
#[verifier::external_body]
fn transaction_map_insert(m: &mut DashMap<i32, TransactionState>, key: i32, value: TransactionState)
    ensures
        transaction_entries(*final(m)) == transaction_entries(*old(m)).insert(key, value),
{
    m.insert(key, value);
}

/// `DashMap::get`, then a clone of the value found.
#[verifier::external_body]
fn transaction_map_get(m: &DashMap<i32, TransactionState>, key: i32) -> (r: Option<TransactionState>)
    ensures
        r == transaction_entries(*m).get(key),
{
    m.get(&key).map(|e| e.value().clone())
}

/// `DashMap::remove`: the key's value, which leaves the map.
#[verifier::external_body]
fn transaction_map_remove(m: &mut DashMap<i32, TransactionState>, key: i32) -> (r: Option<TransactionState>)
    ensures
        r == transaction_entries(*old(m)).get(key),
        transaction_entries(*final(m)) == transaction_entries(*old(m)).remove(key),
{
    m.remove(&key).map(|(_, v)| v)
}

/// `DashMap::len`: the number of entries.
#[verifier::external_body]
fn transaction_map_len(m: &DashMap<i32, TransactionState>) -> (r: usize)
    ensures
        r == transaction_entries(*m).len(),
{
    m.len()
}

/// `DashMap::iter`, each entry's key and a clone of its value: every entry
/// of the map, once each, in the order the shards are walked.
#[verifier::external_body]
fn transaction_map_entries(m: &DashMap<i32, TransactionState>) -> (r: Vec<(i32, TransactionState)>)
    ensures
        r@.len() == transaction_entries(*m).len(),
        forall|i: int| 0 <= i < r@.len() ==> transaction_entries(*m).get(#[trigger] r@[i].0) == Some(r@[i].1),
        forall|i: int, j: int| 0 <= i < j < r@.len() ==> r@[i].0 != r@[j].0,
{
    m.iter().map(|e| (*e.key(), e.value().clone())).collect()
}

/// `DashMap::new`: an empty map.
#[verifier::external_body]
fn config_map_new() -> (r: DashMap<String, String>)
    ensures
        config_entries(r) =~= Map::empty(),
{
    DashMap::new()
}

/// `DashMap::insert`: the key now maps to the value, replacing what it had.
#[verifier::external_body]
fn config_map_insert(m: &mut DashMap<String, String>, key: &str, value: &str)
    ensures
        config_entries(*final(m)) == config_entries(*old(m)).insert(key@, value@),
{
    m.insert(key.to_string(), value.to_string());
}

/// `DashMap::get`, then a clone of the value found.
#[verifier::external_body]
fn config_map_get(m: &DashMap<String, String>, key: &str) -> (r: Option<String>)
    ensures
        opt_text(r) == config_entries(*m).get(key@),
{
    m.get(key).map(|e| e.value().clone())
}

/// `DashMap::new`: an empty map.
#[verifier::external_body]
fn cache_new() -> (r: DashMap<String, DashMap<String, String>>)
    ensures
        cache_entries(r) =~= Map::empty(),
{
    DashMap::new()
}

/// `DashMap::insert`: the charge point now has the given values.
#[verifier::external_body]
fn cache_insert(m: &mut DashMap<String, DashMap<String, String>>, key: &str, values: DashMap<String, String>)
    ensures
        cache_entries(*final(m)) == cache_entries(*old(m)).insert(key@, config_entries(values)),
{
    m.insert(key.to_string(), values);
}

/// `DashMap::remove`: the charge point's values, which leave the cache.
#[verifier::external_body]
fn cache_remove(m: &mut DashMap<String, DashMap<String, String>>, key: &str) -> (r: Option<DashMap<String, String>>)
    ensures
        cache_entries(*final(m)) == cache_entries(*old(m)).remove(key@),
        match r {
            Some(values) => cache_entries(*old(m)).get(key@) == Some(config_entries(values)),
            None => !cache_entries(*old(m)).contains_key(key@),
        },
{
    m.remove(key).map(|(_, v)| v)
}

/// `DashMap::get`, then a clone (`DashMap::clone`) of the charge point's values.
#[verifier::external_body]
fn cache_get(m: &DashMap<String, DashMap<String, String>>, key: &str) -> (r: Option<DashMap<String, String>>)
    ensures
        match r {
            Some(values) => cache_entries(*m).get(key@) == Some(config_entries(values)),
            None => !cache_entries(*m).contains_key(key@),
        },
{
    m.get(key).map(|e| e.value().clone())
}

/// The configuration values of a charge point in a cache, none when it has none.
pub open spec fn values_of(cache: Map<Seq<char>, Map<Seq<char>, Seq<char>>>, charge_point_id: Seq<char>) -> Map<Seq<char>, Seq<char>> {
    if cache.contains_key(charge_point_id) { cache[charge_point_id] } else { Map::empty() }
}

/// Global state manager of the CSMS.
pub struct StateManager {
    charge_point_states: DashMap<String, ChargePointState>,
    connector_states: DashMap<ConnectorKey, ConnectorState>,
    transaction_states: DashMap<i32, TransactionState>,
    config_cache: DashMap<String, DashMap<String, String>>,
}

impl StateManager {
    /// The charge point states, by charge point ID.
    pub closed spec fn charge_points(&self) -> Map<Seq<char>, ChargePointState> {
        charge_point_entries(self.charge_point_states)
    }

    /// The connector states, by charge point ID and connector ID.
    pub closed spec fn connectors(&self) -> Map<(Seq<char>, u32), ConnectorState> {
        connector_entries(self.connector_states)
    }

    /// The running transactions, by transaction ID.
    pub closed spec fn transactions(&self) -> Map<i32, TransactionState> {
        transaction_entries(self.transaction_states)
    }

    /// The cached configuration values, by charge point ID, then key.
    pub closed spec fn config(&self) -> Map<Seq<char>, Map<Seq<char>, Seq<char>>> {
        cache_entries(self.config_cache)
    }

    /// A state manager that knows nothing yet.
    pub fn new() -> (r: Self)
        ensures
            r.charge_points() =~= Map::empty(),
            r.connectors() =~= Map::empty(),
            r.transactions() =~= Map::empty(),
            r.config() =~= Map::empty(),
    {
        StateManager {
            charge_point_states: charge_point_map_new(),
            connector_states: connector_map_new(),
            transaction_states: transaction_map_new(),
            config_cache: cache_new(),
        }
    }

    /// Records the state of a charge point.
    pub fn update_charge_point_state(&mut self, charge_point_id: &str, state: ChargePointState) -> (r: Result<(), CsmsError>)
        ensures
            r is Ok,
            final(self).charge_points() == old(self).charge_points().insert(charge_point_id@, state),
            final(self).connectors() == old(self).connectors(),
            final(self).transactions() == old(self).transactions(),
            final(self).config() == old(self).config(),
    {
        charge_point_map_insert(&mut self.charge_point_states, charge_point_id, state);
        Ok(())
    }

    /// The recorded state of a charge point.
    pub fn get_charge_point_state(&self, charge_point_id: &str) -> (r: Option<ChargePointState>)
        ensures
            r == self.charge_points().get(charge_point_id@),
    {
        charge_point_map_get(&self.charge_point_states, charge_point_id)
    }

    /// Records the state of a connector.
    pub fn update_connector_state(&mut self, charge_point_id: &str, connector_id: u32, state: ConnectorState) -> (r: Result<(), CsmsError>)
        ensures
            r is Ok,
            final(self).connectors() == old(self).connectors().insert((charge_point_id@, connector_id), state),
            final(self).charge_points() == old(self).charge_points(),
            final(self).transactions() == old(self).transactions(),
            final(self).config() == old(self).config(),
    {
        let key = ConnectorKey { charge_point_id: String::from_str(charge_point_id), connector_id };
        connector_map_insert(&mut self.connector_states, key, state);
        Ok(())
    }

    /// The recorded state of a connector.
    pub fn get_connector_state(&self, charge_point_id: &str, connector_id: u32) -> (r: Option<ConnectorState>)
        ensures
            r == self.connectors().get((charge_point_id@, connector_id)),
    {
        let key = ConnectorKey { charge_point_id: String::from_str(charge_point_id), connector_id };
        connector_map_get(&self.connector_states, &key)
    }

    /// Records a started transaction.
    pub fn start_transaction(&mut self, transaction_id: i32, state: TransactionState) -> (r: Result<(), CsmsError>)
        ensures
            r is Ok,
            final(self).transactions() == old(self).transactions().insert(transaction_id, state),
            final(self).charge_points() == old(self).charge_points(),
            final(self).connectors() == old(self).connectors(),
            final(self).config() == old(self).config(),
    {
        transaction_map_insert(&mut self.transaction_states, transaction_id, state);
        Ok(())
    }

    /// Ends a transaction: it is forgotten, and its state is returned if it was known.
    pub fn stop_transaction(&mut self, transaction_id: i32) -> (r: Result<Option<TransactionState>, CsmsError>)
        ensures
            r matches Ok(s) && s == old(self).transactions().get(transaction_id),
            final(self).transactions() == old(self).transactions().remove(transaction_id),
            final(self).charge_points() == old(self).charge_points(),
            final(self).connectors() == old(self).connectors(),
            final(self).config() == old(self).config(),
    {
        Ok(transaction_map_remove(&mut self.transaction_states, transaction_id))
    }

    /// The state of a running transaction.
    pub fn get_transaction_state(&self, transaction_id: i32) -> (r: Option<TransactionState>)
        ensures
            r == self.transactions().get(transaction_id),
    {
        transaction_map_get(&self.transaction_states, transaction_id)
    }

    /// All running transactions, each once, in no particular order.
    pub fn get_active_transactions(&self) -> (r: Vec<(i32, TransactionState)>)
        ensures
            r@.len() == self.transactions().len(),
            forall|i: int| 0 <= i < r@.len() ==> self.transactions().get(#[trigger] r@[i].0) == Some(r@[i].1),
            forall|i: int, j: int| 0 <= i < j < r@.len() ==> r@[i].0 != r@[j].0,
    {
        transaction_map_entries(&self.transaction_states)
    }

    /// Caches a configuration value of a charge point.
    pub fn cache_config_value(&mut self, charge_point_id: &str, key: &str, value: &str) -> (r: Result<(), CsmsError>)
        ensures
            r is Ok,
            final(self).config() == old(self).config().insert(
                charge_point_id@,
                values_of(old(self).config(), charge_point_id@).insert(key@, value@),
            ),
            final(self).charge_points() == old(self).charge_points(),
            final(self).connectors() == old(self).connectors(),
            final(self).transactions() == old(self).transactions(),
    {
        let mut values = match cache_remove(&mut self.config_cache, charge_point_id) {
            Some(values) => values,
            None => config_map_new(),
        };
        config_map_insert(&mut values, key, value);
        cache_insert(&mut self.config_cache, charge_point_id, values);
        proof {
            assert(final(self).config() =~= old(self).config().insert(
                charge_point_id@,
                values_of(old(self).config(), charge_point_id@).insert(key@, value@),
            ));
        }
        Ok(())
    }

    /// A cached configuration value of a charge point.
    pub fn get_cached_config_value(&self, charge_point_id: &str, key: &str) -> (r: Option<String>)
        ensures
            opt_text(r) == values_of(self.config(), charge_point_id@).get(key@),
    {
        match cache_get(&self.config_cache, charge_point_id) {
            Some(values) => config_map_get(&values, key),
            None => None,
        }
    }

    /// Forgets a charge point: its state, its connectors and its cached
    /// configuration. Transactions stay.
    pub fn clear_charge_point_state(&mut self, charge_point_id: &str) -> (r: Result<(), CsmsError>)
        ensures
            r is Ok,
            final(self).charge_points() == old(self).charge_points().remove(charge_point_id@),
            final(self).connectors() == old(self).connectors().restrict(
                Set::new(|k: (Seq<char>, u32)| k.0 != charge_point_id@),
            ),
            final(self).config() == old(self).config().remove(charge_point_id@),
            final(self).transactions() == old(self).transactions(),
    {
        charge_point_map_remove(&mut self.charge_point_states, charge_point_id);
        let ghost before = self.connectors();
        let ghost points = self.charge_point_states;
        let ghost running = self.transaction_states;
        let ghost cached = self.config_cache;
        let keys = connector_map_keys(&self.connector_states);
        let mut i: usize = 0;
        while i < keys.len()
            invariant
                0 <= i <= keys@.len(),
                self.charge_point_states == points,
                self.transaction_states == running,
                self.config_cache == cached,
                forall|j: int| 0 <= j < keys@.len() ==> before.contains_key(#[trigger] keys@[j].spec_key()),
                forall|k: (Seq<char>, u32)| #[trigger] before.contains_key(k)
                    ==> exists|j: int| 0 <= j < keys@.len() && keys@[j].spec_key() == k,
                forall|k: (Seq<char>, u32)| #[trigger] connector_entries(self.connector_states).contains_key(k)
                    <==> (before.contains_key(k) && (k.0 != charge_point_id@
                        || forall|j: int| 0 <= j < i ==> keys@[j].spec_key() != k)),
                forall|k: (Seq<char>, u32)| #[trigger] connector_entries(self.connector_states).contains_key(k)
                    ==> connector_entries(self.connector_states)[k] == before[k],
            decreases keys@.len() - i,
        {
            if str_eq(keys[i].charge_point_id.as_str(), charge_point_id) {
                connector_map_remove(&mut self.connector_states, &keys[i]);
            }
            i = i + 1;
        }
        proof {
            assert forall|k: (Seq<char>, u32)| #[trigger] connector_entries(self.connector_states).contains_key(k)
                <==> (before.contains_key(k) && k.0 != charge_point_id@) by {
                if before.contains_key(k) && k.0 == charge_point_id@ {
                    let j = choose|j: int| 0 <= j < keys@.len() && keys@[j].spec_key() == k;
                    assert(keys@[j].spec_key() == k);
                }
            }
            assert(connector_entries(self.connector_states) =~= before.restrict(
                Set::new(|k: (Seq<char>, u32)| k.0 != charge_point_id@),
            ));
        }
        cache_remove(&mut self.config_cache, charge_point_id);
        Ok(())
    }

    /// Counts of what is tracked.
    pub fn get_stats(&self) -> (r: StateStats)
        ensures
            r.charge_points == self.charge_points().len(),
            r.connectors == self.connectors().len(),
            r.active_transactions == self.transactions().len(),
    {
        StateStats {
            charge_points: charge_point_map_len(&self.charge_point_states),
            connectors: connector_map_len(&self.connector_states),
            active_transactions: transaction_map_len(&self.transaction_states),
        }
    }
}

impl Default for StateManager {
    fn default() -> (r: Self)
        ensures
            r.charge_points() =~= Map::empty(),
            r.connectors() =~= Map::empty(),
            r.transactions() =~= Map::empty(),
            r.config() =~= Map::empty(),
    {
        Self::new()
    }
}

/// A charge point state that was recorded is what a later read gives back,
/// and every other charge point reads as before.
pub proof fn lemma_read_after_write(
    before: StateManager,
    after: StateManager,
    charge_point_id: Seq<char>,
    state: ChargePointState,
    other: Seq<char>,
)
    requires
        after.charge_points() == before.charge_points().insert(charge_point_id, state),
    ensures
        after.charge_points().get(charge_point_id) == Some(state),
        other != charge_point_id ==> after.charge_points().get(other) == before.charge_points().get(other),
{
}

/// A connector state that was recorded is what a later read gives back, and
/// every other connector reads as before.
pub proof fn lemma_connector_read_after_write(
    before: StateManager,
    after: StateManager,
    key: (Seq<char>, u32),
    state: ConnectorState,
    other: (Seq<char>, u32),
)
    requires
        after.connectors() == before.connectors().insert(key, state),
    ensures
        after.connectors().get(key) == Some(state),
        other != key ==> after.connectors().get(other) == before.connectors().get(other),
{
}

/// Stopping a transaction right after starting it hands back the started
/// state and leaves the transactions as they were without that ID.
pub proof fn lemma_stop_after_start(
    before: StateManager,
    started: StateManager,
    stopped: StateManager,
    transaction_id: i32,
    state: TransactionState,
    returned: Option<TransactionState>,
)
    requires
        started.transactions() == before.transactions().insert(transaction_id, state),
        returned == started.transactions().get(transaction_id),
        stopped.transactions() == started.transactions().remove(transaction_id),
    ensures
        returned == Some(state),
        stopped.transactions() == before.transactions().remove(transaction_id),
        !stopped.transactions().contains_key(transaction_id),
{
    assert(before.transactions().insert(transaction_id, state).remove(transaction_id) =~= before.transactions().remove(
        transaction_id,
    ));
}

/// Clearing a charge point forgets exactly its connectors; the connectors of
/// every other charge point keep their state.
pub proof fn lemma_clear_keeps_other_connectors(
    before: StateManager,
    after: StateManager,
    charge_point_id: Seq<char>,
    key: (Seq<char>, u32),
)
    requires
        after.connectors() == before.connectors().restrict(Set::new(|k: (Seq<char>, u32)| k.0 != charge_point_id)),
    ensures
        after.connectors().contains_key(key) <==> (before.connectors().contains_key(key) && key.0 != charge_point_id),
        after.connectors().contains_key(key) ==> after.connectors()[key] == before.connectors()[key],
{
}

/// A cached configuration value reads back as written; the other keys of
/// that charge point and all other charge points keep their values.
pub proof fn lemma_cached_value_read_back(
    before: StateManager,
    after: StateManager,
    charge_point_id: Seq<char>,
    key: Seq<char>,
    value: Seq<char>,
    other_point: Seq<char>,
    other_key: Seq<char>,
)
    requires
        after.config() == before.config().insert(
            charge_point_id,
            values_of(before.config(), charge_point_id).insert(key, value),
        ),
    ensures
        values_of(after.config(), charge_point_id).get(key) == Some(value),
        other_key != key ==> values_of(after.config(), charge_point_id).get(other_key) == values_of(
            before.config(),
            charge_point_id,
        ).get(other_key),
        other_point != charge_point_id ==> values_of(after.config(), other_point) == values_of(
            before.config(),
            other_point,
        ),
{
}

} // verus!
