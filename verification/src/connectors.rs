//! The simulated charge point's connectors: plugging and unplugging the
//! cable, starting and stopping transactions, changing availability, and the
//! OCPP messages each action sends to the central system.

use vstd::prelude::*;
use crate::json::json_quoted;
use crate::state::{ConnectorStatus, ErrorCode};
use crate::text::{decimal, i64_to_text, signed_decimal, u64_to_text};
use crate::time::{rfc3339_text, Timestamp};

verus! {

/// The power a charging connector draws, in watts.
pub open spec fn charging_power() -> u32 {
    7200
}

/// Why a connector action was refused.
#[derive(Debug, Clone, Copy, PartialEq, Eq, Structural)]
pub enum ConnectorError {
    /// No connector has this number
    NoSuchConnector(u32),
    /// The connector is not `Available`
    NotAvailable(u32),
    /// A cable is already plugged in
    CableAlreadyPlugged(u32),
    /// No cable is plugged in
    CableNotPlugged(u32),
    /// A transaction needs a plugged-in cable
    CableRequired,
    /// The cable cannot be unplugged while charging
    UnplugDuringTransaction,
    /// The connector already runs a transaction
    TransactionAlreadyActive(u32),
    /// The connector runs no transaction
    NoActiveTransaction(u32),
    /// A running transaction only allows making the connector available
    AvailabilityLocked(u32),
    /// No message or transaction number is left
    IdsExhausted,
}

impl ConnectorError {
    /// The text the refusal is shown with.
    pub open spec fn display(self) -> Seq<char> {
        match self {
            ConnectorError::NoSuchConnector(id) => "Connector "@ + decimal(id as nat) + " does not exist"@,
            ConnectorError::NotAvailable(id) => "Connector "@ + decimal(id as nat) + " is not available"@,
            ConnectorError::CableAlreadyPlugged(id) => "Cable already plugged in on connector "@ + decimal(id as nat),
            ConnectorError::CableNotPlugged(id) => "Cable is not plugged in on connector "@ + decimal(id as nat),
            ConnectorError::CableRequired => "Cable must be plugged in before starting transaction"@,
            ConnectorError::UnplugDuringTransaction => "Cannot unplug cable during active transaction"@,
            ConnectorError::TransactionAlreadyActive(id) => "Transaction already active on connector "@
                + decimal(id as nat),
            ConnectorError::NoActiveTransaction(id) => "No active transaction on connector "@ + decimal(id as nat),
            ConnectorError::AvailabilityLocked(id) => "Cannot change availability during active transaction on connector "@
                + decimal(id as nat),
            ConnectorError::IdsExhausted => "No message or transaction number left"@,
        }
    }

    /// The text the refusal is shown with.
    pub fn to_string(&self) -> (s: String)
        ensures
            s@ == self.display(),
    {
        let (head, id): (&str, Option<u32>) = match self {
            ConnectorError::NoSuchConnector(id) => ("Connector ", Some(*id)),
            ConnectorError::NotAvailable(id) => ("Connector ", Some(*id)),
            ConnectorError::CableAlreadyPlugged(id) => ("Cable already plugged in on connector ", Some(*id)),
            ConnectorError::CableNotPlugged(id) => ("Cable is not plugged in on connector ", Some(*id)),
            ConnectorError::CableRequired => ("Cable must be plugged in before starting transaction", None),
            ConnectorError::UnplugDuringTransaction => ("Cannot unplug cable during active transaction", None),
            ConnectorError::TransactionAlreadyActive(id) => ("Transaction already active on connector ", Some(*id)),
            ConnectorError::NoActiveTransaction(id) => ("No active transaction on connector ", Some(*id)),
            ConnectorError::AvailabilityLocked(id) => (
                "Cannot change availability during active transaction on connector ",
                Some(*id),
            ),
            ConnectorError::IdsExhausted => ("No message or transaction number left", None),
        };
        let mut s = String::from_str(head);
        if let Some(n) = id {
            s.append(u64_to_text(n as u64).as_str());
        }
        match self {
            ConnectorError::NoSuchConnector(_) => s.append(" does not exist"),
            ConnectorError::NotAvailable(_) => s.append(" is not available"),
            _ => {},
        }
        s
    }
}

/// The availability a connector can be set to.
#[derive(Debug, Clone, Copy, PartialEq, Eq, Structural)]
pub enum Availability {
    Available,
    Unavailable,
    Faulted,
}

/// The status an availability sets.
pub open spec fn availability_status(a: Availability) -> ConnectorStatus {
    match a {
        Availability::Available => ConnectorStatus::Available,
        Availability::Unavailable => ConnectorStatus::Unavailable,
        Availability::Faulted => ConnectorStatus::Faulted,
    }
}

/// A simulated connector.
#[derive(Debug)]
pub struct Connector {
    /// Connector number, from 1
    pub id: u32,
    /// Current status
    pub status: ConnectorStatus,
    /// Current error code
    pub error_code: ErrorCode,
    /// Whether a cable is plugged in
    pub cable_plugged: bool,
    /// The running transaction, if any
    pub transaction_id: Option<i32>,
    /// The tag that started the running transaction
    pub id_tag: Option<String>,
    /// Power drawn, in watts
    pub power_w: u32,
    /// Energy delivered in the current or last transaction, in watt-seconds
    pub energy_ws: u64,
    /// When the status last changed
    pub last_update: Option<Timestamp>,
}

/// What a connector holds, as plain values.
pub struct ConnectorView {
    pub id: u32,
    pub status: ConnectorStatus,
    pub error_code: ErrorCode,
    pub cable_plugged: bool,
    pub transaction_id: Option<i32>,
    pub id_tag: Option<Seq<char>>,
    pub power_w: u32,
    pub energy_ws: u64,
    pub last_update: Option<Timestamp>,
}

impl View for Connector {
    type V = ConnectorView;

    open spec fn view(&self) -> ConnectorView {
        ConnectorView {
            id: self.id,
            status: self.status,
            error_code: self.error_code,
            cable_plugged: self.cable_plugged,
            transaction_id: self.transaction_id,
            id_tag: match self.id_tag {
                Some(t) => Some(t@),
                None => None,
            },
            power_w: self.power_w,
            energy_ws: self.energy_ws,
            last_update: self.last_update,
        }
    }
}

/// The StatusNotification CALL for a connector.
pub open spec fn status_frame(message_id: u64, connector_id: u32, code: ErrorCode, status: ConnectorStatus, at: Timestamp) -> Seq<char> {
    "[2,"@ + json_quoted(decimal(message_id as nat)) + ",\"StatusNotification\",{\"connectorId\":"@
        + decimal(connector_id as nat) + ",\"errorCode\":"@ + json_quoted(code.name()) + ",\"status\":"@
        + json_quoted(status.name()) + ",\"timestamp\":"@ + json_quoted(rfc3339_text(at.secs, at.nanos)) + "}]"@
}

/// The StartTransaction CALL for a connector.
pub open spec fn start_frame(message_id: u64, connector_id: u32, id_tag: Seq<char>, at: Timestamp) -> Seq<char> {
    "[2,"@ + json_quoted(decimal(message_id as nat)) + ",\"StartTransaction\",{\"connectorId\":"@
        + decimal(connector_id as nat) + ",\"idTag\":"@ + json_quoted(id_tag) + ",\"meterStart\":0,\"timestamp\":"@
        + json_quoted(rfc3339_text(at.secs, at.nanos)) + "}]"@
}

/// The StopTransaction CALL for a transaction, with the meter reading in Wh.
pub open spec fn stop_frame(message_id: u64, meter_stop: u64, transaction_id: i32, at: Timestamp) -> Seq<char> {
    "[2,"@ + json_quoted(decimal(message_id as nat)) + ",\"StopTransaction\",{\"meterStop\":"@
        + decimal(meter_stop as nat) + ",\"timestamp\":"@ + json_quoted(rfc3339_text(at.secs, at.nanos))
        + ",\"transactionId\":"@ + signed_decimal(transaction_id as int) + "}]"@
}

fn quoted(s: &str) -> (r: String)
    ensures
        r@ == json_quoted(s@),
{
    crate::json::JsonValue::string(s).to_string()
}

fn status_frame_text(message_id: u64, connector_id: u32, code: ErrorCode, status: ConnectorStatus, at: Timestamp) -> (r: String)
    ensures
        r@ == status_frame(message_id, connector_id, code, status, at),
{
    let mut s = String::from_str("[2,");
    s.append(quoted(u64_to_text(message_id).as_str()).as_str());
    s.append(",\"StatusNotification\",{\"connectorId\":");
    s.append(u64_to_text(connector_id as u64).as_str());
    s.append(",\"errorCode\":");
    s.append(quoted(code.as_str()).as_str());
    s.append(",\"status\":");
    s.append(quoted(status.as_str()).as_str());
    s.append(",\"timestamp\":");
    s.append(quoted(at.to_rfc3339().as_str()).as_str());
    s.append("}]");
    s
}

fn start_frame_text(message_id: u64, connector_id: u32, id_tag: &str, at: Timestamp) -> (r: String)
    ensures
        r@ == start_frame(message_id, connector_id, id_tag@, at),
{
    let mut s = String::from_str("[2,");
    s.append(quoted(u64_to_text(message_id).as_str()).as_str());
    s.append(",\"StartTransaction\",{\"connectorId\":");
    s.append(u64_to_text(connector_id as u64).as_str());
    s.append(",\"idTag\":");
    s.append(quoted(id_tag).as_str());
    s.append(",\"meterStart\":0,\"timestamp\":");
    s.append(quoted(at.to_rfc3339().as_str()).as_str());
    s.append("}]");
    s
}

fn stop_frame_text(message_id: u64, meter_stop: u64, transaction_id: i32, at: Timestamp) -> (r: String)
    ensures
        r@ == stop_frame(message_id, meter_stop, transaction_id, at),
{
    let mut s = String::from_str("[2,");
    s.append(quoted(u64_to_text(message_id).as_str()).as_str());
    s.append(",\"StopTransaction\",{\"meterStop\":");
    s.append(u64_to_text(meter_stop).as_str());
    s.append(",\"timestamp\":");
    s.append(quoted(at.to_rfc3339().as_str()).as_str());
    s.append(",\"transactionId\":");
    s.append(i64_to_text(transaction_id as i64).as_str());
    s.append("}]");
    s
}

/// The views of a list of frames.
pub open spec fn frame_texts(frames: Seq<String>) -> Seq<Seq<char>> {
    frames.map_values(|f: String| f@)
}

/// Every running transaction has its cable plugged in, the connectors are
/// numbered 1, 2, ... in order, and none reports an error (no action sets
/// one, so every StatusNotification carries `NoError`).
pub open spec fn bank_consistent(cs: Seq<ConnectorView>) -> bool {
    &&& forall|i: int| 0 <= i < cs.len() ==> (#[trigger] cs[i]).id == i + 1
    &&& forall|i: int| 0 <= i < cs.len() ==> ((#[trigger] cs[i]).transaction_id is Some ==> cs[i].cable_plugged)
    &&& forall|i: int| 0 <= i < cs.len() ==> (#[trigger] cs[i]).error_code == ErrorCode::NoError
}

/// Every running transaction has a number below `next`.
pub open spec fn transactions_below(cs: Seq<ConnectorView>, next: i32) -> bool {
    forall|i: int| 0 <= i < cs.len() ==> ((#[trigger] cs[i]).transaction_id matches Some(t) ==> t < next)
}

/// The connector with number `id`, when there is one.
pub open spec fn has_connector(cs: Seq<ConnectorView>, id: u32) -> bool {
    1 <= id <= cs.len()
}

/// Why plugging in would be refused, if it would.
pub open spec fn plug_in_refusal(cs: Seq<ConnectorView>, id: u32) -> Option<ConnectorError> {
    if !has_connector(cs, id) {
        Some(ConnectorError::NoSuchConnector(id))
    } else if cs[id - 1].status != ConnectorStatus::Available {
        Some(ConnectorError::NotAvailable(id))
    } else if cs[id - 1].cable_plugged {
        Some(ConnectorError::CableAlreadyPlugged(id))
    } else {
        None
    }
}

/// Why unplugging would be refused, if it would.
pub open spec fn plug_out_refusal(cs: Seq<ConnectorView>, id: u32) -> Option<ConnectorError> {
    if !has_connector(cs, id) {
        Some(ConnectorError::NoSuchConnector(id))
    } else if !cs[id - 1].cable_plugged {
        Some(ConnectorError::CableNotPlugged(id))
    } else if cs[id - 1].transaction_id is Some {
        Some(ConnectorError::UnplugDuringTransaction)
    } else {
        None
    }
}

/// Why starting a transaction would be refused, if it would.
pub open spec fn start_refusal(cs: Seq<ConnectorView>, id: u32) -> Option<ConnectorError> {
    if !has_connector(cs, id) {
        Some(ConnectorError::NoSuchConnector(id))
    } else if !cs[id - 1].cable_plugged {
        Some(ConnectorError::CableRequired)
    } else if cs[id - 1].status == ConnectorStatus::Faulted || cs[id - 1].status == ConnectorStatus::Unavailable {
        Some(ConnectorError::NotAvailable(id))
    } else if cs[id - 1].transaction_id is Some {
        Some(ConnectorError::TransactionAlreadyActive(id))
    } else {
        None
    }
}

/// Why stopping a transaction would be refused, if it would.
pub open spec fn stop_refusal(cs: Seq<ConnectorView>, id: u32) -> Option<ConnectorError> {
    if !has_connector(cs, id) {
        Some(ConnectorError::NoSuchConnector(id))
    } else if cs[id - 1].transaction_id is None {
        Some(ConnectorError::NoActiveTransaction(id))
    } else {
        None
    }
}

/// Why changing availability would be refused, if it would.
pub open spec fn availability_refusal(cs: Seq<ConnectorView>, id: u32, a: Availability) -> Option<ConnectorError> {
    if !has_connector(cs, id) {
        Some(ConnectorError::NoSuchConnector(id))
    } else if cs[id - 1].transaction_id is Some && a != Availability::Available {
        Some(ConnectorError::AvailabilityLocked(id))
    } else {
        None
    }
}

/// Energy delivered in Wh, from watt-seconds.
pub open spec fn watt_hours(energy_ws: u64) -> u64 {
    energy_ws / 3600
}

/// A connector after its cable was plugged in.
pub open spec fn plugged_in(c: ConnectorView, at: Timestamp) -> ConnectorView {
    ConnectorView { status: ConnectorStatus::Preparing, cable_plugged: true, last_update: Some(at), ..c }
}

/// A connector after its cable was unplugged.
pub open spec fn plugged_out(c: ConnectorView, at: Timestamp) -> ConnectorView {
    ConnectorView { status: ConnectorStatus::Available, cable_plugged: false, last_update: Some(at), ..c }
}

/// A connector after transaction `tx` started on it for `id_tag`.
pub open spec fn charging(c: ConnectorView, tx: i32, id_tag: Seq<char>, at: Timestamp) -> ConnectorView {
    ConnectorView {
        status: ConnectorStatus::Charging,
        transaction_id: Some(tx),
        id_tag: Some(id_tag),
        power_w: charging_power(),
        energy_ws: 0,
        last_update: Some(at),
        ..c
    }
}

/// A connector whose transaction was stopped, finishing.
pub open spec fn finishing(c: ConnectorView, at: Timestamp) -> ConnectorView {
    ConnectorView {
        status: ConnectorStatus::Finishing,
        transaction_id: None,
        id_tag: None,
        power_w: 0,
        last_update: Some(at),
        ..c
    }
}

/// A finishing connector that went back to preparing.
pub open spec fn prepared(c: ConnectorView, at: Timestamp) -> ConnectorView {
    ConnectorView { status: ConnectorStatus::Preparing, last_update: Some(at), ..c }
}

/// A connector set to an availability.
pub open spec fn made(c: ConnectorView, a: Availability, at: Timestamp) -> ConnectorView {
    ConnectorView { status: availability_status(a), last_update: Some(at), ..c }
}

/// A connector after `secs` seconds: a running transaction adds its power
/// over that time to the energy delivered (saturating).
pub open spec fn after_seconds(c: ConnectorView, secs: u64) -> ConnectorView {
    if c.transaction_id is Some {
        let e = c.energy_ws + c.power_w * secs;
        ConnectorView { energy_ws: if e > u64::MAX { u64::MAX } else { e as u64 }, ..c }
    } else {
        c
    }
}

fn clone_tag(t: &Option<String>) -> (r: Option<String>)
    ensures
        r == *t,
{
    match t {
        Some(s) => Some(s.clone()),
        None => None,
    }
}

/// The connectors of a simulated charge point, with the numbers the next
/// message and the next transaction get.
pub struct ConnectorBank {
    connectors: Vec<Connector>,
    next_message_id: u64,
    next_transaction_id: i32,
}

impl ConnectorBank {
    #[verifier::type_invariant]
    spec fn consistent(&self) -> bool {
        &&& bank_consistent(self.connectors@.map_values(|c: Connector| c@))
        &&& transactions_below(self.connectors@.map_values(|c: Connector| c@), self.next_transaction_id)
    }

    /// The connectors.
    pub closed spec fn connectors_spec(&self) -> Seq<ConnectorView> {
        self.connectors@.map_values(|c: Connector| c@)
    }

    /// The number the next message gets.
    pub closed spec fn next_message_spec(&self) -> u64 {
        self.next_message_id
    }

    /// The number the next transaction gets.
    pub closed spec fn next_transaction_spec(&self) -> i32 {
        self.next_transaction_id
    }

    /// `count` connectors, all available with no cable, no error and no
    /// transaction; messages and transactions are numbered from the given
    /// first numbers.
    pub fn new(count: u32, first_message_id: u64, first_transaction_id: i32) -> (r: Self)
        ensures
            r.connectors_spec().len() == count,
            forall|i: int| 0 <= i < count ==> (#[trigger] r.connectors_spec()[i]) == (ConnectorView {
                id: (i + 1) as u32,
                status: ConnectorStatus::Available,
                error_code: ErrorCode::NoError,
                cable_plugged: false,
                transaction_id: None,
                id_tag: None,
                power_w: 0,
                energy_ws: 0,
                last_update: None,
            }),
            r.next_message_spec() == first_message_id,
            r.next_transaction_spec() == first_transaction_id,
    {
        let mut connectors: Vec<Connector> = Vec::new();
        let mut i: u32 = 0;
        while i < count
            invariant
                0 <= i <= count,
                connectors@.len() == i,
                forall|j: int| 0 <= j < i ==> (#[trigger] connectors@[j])@ == (ConnectorView {
                    id: (j + 1) as u32,
                    status: ConnectorStatus::Available,
                    error_code: ErrorCode::NoError,
                    cable_plugged: false,
                    transaction_id: None,
                    id_tag: None,
                    power_w: 0,
                    energy_ws: 0,
                    last_update: None,
                }),
            decreases count - i,
        {
            connectors.push(Connector {
                id: i + 1,
                status: ConnectorStatus::Available,
                error_code: ErrorCode::NoError,
                cable_plugged: false,
                transaction_id: None,
                id_tag: None,
                power_w: 0,
                energy_ws: 0,
                last_update: None,
            });
            i = i + 1;
        }
        ConnectorBank { connectors, next_message_id: first_message_id, next_transaction_id: first_transaction_id }
    }

    /// The connectors. Whatever happened to the bank before, they are
    /// numbered 1, 2, ... in order, none reports an error, and every running
    /// transaction has its cable plugged in and a number below the next one.
    pub fn connectors(&self) -> (r: &Vec<Connector>)
        ensures
            r@.map_values(|c: Connector| c@) == self.connectors_spec(),
            bank_consistent(self.connectors_spec()),
            transactions_below(self.connectors_spec(), self.next_transaction_spec()),
    {
        proof {
            use_type_invariant(self);
        }
        &self.connectors
    }

    /// Whether `n` more message numbers are left.
    pub open spec fn messages_left(&self, n: int) -> bool {
        self.next_message_spec() + n <= u64::MAX
    }

    /// Replaces connector `i` (from 0).
    fn replace(&mut self, i: usize, c: Connector)
        requires
            i < old(self).connectors_spec().len(),
            c.id == i + 1,
            c.error_code == ErrorCode::NoError,
            c.transaction_id matches Some(t) ==> c.cable_plugged && t < old(self).next_transaction_spec(),
        ensures
            final(self).connectors_spec() == old(self).connectors_spec().update(i as int, c@),
            final(self).next_message_spec() == old(self).next_message_spec(),
            final(self).next_transaction_spec() == old(self).next_transaction_spec(),
    {
        proof {
            use_type_invariant(&*self);
        }
        let mut all: Vec<Connector> = Vec::new();
        std::mem::swap(&mut all, &mut self.connectors);
        let ghost before = all@;
        all.set(i, c);
        proof {
            assert(all@.map_values(|c: Connector| c@) =~= before.map_values(|c: Connector| c@).update(i as int, c@));
        }
        self.connectors = all;
    }

    /// Takes the next message number.
    fn take_message_id(&mut self) -> (r: u64)
        requires
            old(self).messages_left(1),
        ensures
            r == old(self).next_message_spec(),
            final(self).next_message_spec() == old(self).next_message_spec() + 1,
            final(self).connectors_spec() == old(self).connectors_spec(),
            final(self).next_transaction_spec() == old(self).next_transaction_spec(),
    {
        proof {
            use_type_invariant(&*self);
        }
        let r = self.next_message_id;
        self.next_message_id = self.next_message_id + 1;
        r
    }

    /// The connector with number `id` (from 1).
    fn at(&self, id: u32) -> (r: &Connector)
        requires
            has_connector(self.connectors_spec(), id),
        ensures
            r@ == self.connectors_spec()[id - 1],
    {
        &self.connectors[(id - 1) as usize]
    }

    /// Plugs a cable into connector `id`: it becomes `Preparing`, and a
    /// StatusNotification is sent. Refused unless the connector exists, is
    /// `Available` and has no cable.
    pub fn plug_in(&mut self, id: u32, at: Timestamp) -> (r: Result<Vec<String>, ConnectorError>)
        ensures
            bank_consistent(final(self).connectors_spec()),
            match plug_in_refusal(old(self).connectors_spec(), id) {
                Some(e) => r == Err::<Vec<String>, ConnectorError>(e) && final(self).connectors_spec() == old(self).connectors_spec()
                    && final(self).next_message_spec() == old(self).next_message_spec(),
                None => if !old(self).messages_left(1) {
                    r == Err::<Vec<String>, ConnectorError>(ConnectorError::IdsExhausted)
                        && final(self).connectors_spec() == old(self).connectors_spec()
                } else {
                    let c = old(self).connectors_spec()[id - 1];
                    &&& r matches Ok(frames) && frame_texts(frames@) == seq![
                        status_frame(old(self).next_message_spec(), id, c.error_code, ConnectorStatus::Preparing, at),
                    ]
                    &&& final(self).connectors_spec() == old(self).connectors_spec().update(id - 1, plugged_in(c, at))
                    &&& final(self).next_message_spec() == old(self).next_message_spec() + 1
                },
            },
            final(self).next_transaction_spec() == old(self).next_transaction_spec(),
    {
        proof {
            use_type_invariant(&*self);
        }
        if id == 0 || id as usize > self.connectors.len() {
            return Err(ConnectorError::NoSuchConnector(id));
        }
        let c = self.at(id);
        if c.status != ConnectorStatus::Available {
            return Err(ConnectorError::NotAvailable(id));
        }
        if c.cable_plugged {
            return Err(ConnectorError::CableAlreadyPlugged(id));
        }
        if self.next_message_id > u64::MAX - 1 {
            return Err(ConnectorError::IdsExhausted);
        }
        let next = Connector {
            id: c.id,
            status: ConnectorStatus::Preparing,
            error_code: c.error_code,
            cable_plugged: true,
            transaction_id: c.transaction_id,
            id_tag: clone_tag(&c.id_tag),
            power_w: c.power_w,
            energy_ws: c.energy_ws,
            last_update: Some(at),
        };
        let code = c.error_code;
        proof {
            assert(bank_consistent(self.connectors_spec()));
        }
        self.replace((id - 1) as usize, next);
        let m = self.take_message_id();
        let frames = vec![status_frame_text(m, id, code, ConnectorStatus::Preparing, at)];
        proof {
            assert(frame_texts(frames@) =~= seq![status_frame(m, id, code, ConnectorStatus::Preparing, at)]);
        }
        Ok(frames)
    }

    /// Takes the next transaction number.
    fn take_transaction_id(&mut self) -> (r: i32)
        requires
            old(self).next_transaction_spec() < i32::MAX,
        ensures
            r == old(self).next_transaction_spec(),
            final(self).next_transaction_spec() == old(self).next_transaction_spec() + 1,
            final(self).connectors_spec() == old(self).connectors_spec(),
            final(self).next_message_spec() == old(self).next_message_spec(),
    {
        proof {
            use_type_invariant(&*self);
        }
        let r = self.next_transaction_id;
        self.next_transaction_id = self.next_transaction_id + 1;
        r
    }

    /// Unplugs the cable of connector `id`: it becomes `Available`, and a
    /// StatusNotification is sent. Refused unless the connector exists, has a
    /// cable, and runs no transaction.
    pub fn plug_out(&mut self, id: u32, at: Timestamp) -> (r: Result<Vec<String>, ConnectorError>)
        ensures
            bank_consistent(final(self).connectors_spec()),
            match plug_out_refusal(old(self).connectors_spec(), id) {
                Some(e) => r == Err::<Vec<String>, ConnectorError>(e) && final(self).connectors_spec() == old(self).connectors_spec()
                    && final(self).next_message_spec() == old(self).next_message_spec(),
                None => if !old(self).messages_left(1) {
                    r == Err::<Vec<String>, ConnectorError>(ConnectorError::IdsExhausted)
                        && final(self).connectors_spec() == old(self).connectors_spec()
                } else {
                    let c = old(self).connectors_spec()[id - 1];
                    &&& r matches Ok(frames) && frame_texts(frames@) == seq![
                        status_frame(old(self).next_message_spec(), id, c.error_code, ConnectorStatus::Available, at),
                    ]
                    &&& final(self).connectors_spec() == old(self).connectors_spec().update(id - 1, plugged_out(c, at))
                    &&& final(self).next_message_spec() == old(self).next_message_spec() + 1
                },
            },
            final(self).next_transaction_spec() == old(self).next_transaction_spec(),
    {
        proof {
            use_type_invariant(&*self);
        }
        if id == 0 || id as usize > self.connectors.len() {
            return Err(ConnectorError::NoSuchConnector(id));
        }
        let c = self.at(id);
        if !c.cable_plugged {
            return Err(ConnectorError::CableNotPlugged(id));
        }
        if c.transaction_id.is_some() {
            return Err(ConnectorError::UnplugDuringTransaction);
        }
        if self.next_message_id > u64::MAX - 1 {
            return Err(ConnectorError::IdsExhausted);
        }
        let next = Connector {
            id: c.id,
            status: ConnectorStatus::Available,
            error_code: c.error_code,
            cable_plugged: false,
            transaction_id: c.transaction_id,
            id_tag: clone_tag(&c.id_tag),
            power_w: c.power_w,
            energy_ws: c.energy_ws,
            last_update: Some(at),
        };
        let code = c.error_code;
        proof {
            assert(bank_consistent(self.connectors_spec()));
        }
        self.replace((id - 1) as usize, next);
        let m = self.take_message_id();
        let frames = vec![status_frame_text(m, id, code, ConnectorStatus::Available, at)];
        proof {
            assert(frame_texts(frames@) =~= seq![status_frame(m, id, code, ConnectorStatus::Available, at)]);
        }
        Ok(frames)
    }

    /// Starts a transaction for `id_tag` on connector `id`: it gets the next
    /// transaction number and starts `Charging` at the charging power, and a
    /// StartTransaction and a StatusNotification are sent. Refused unless the
    /// connector exists, has a cable, is neither faulted nor unavailable, and
    /// runs no transaction yet.
    pub fn start_transaction(&mut self, id: u32, id_tag: &str, at: Timestamp) -> (r: Result<Vec<String>, ConnectorError>)
        ensures
            bank_consistent(final(self).connectors_spec()),
            match start_refusal(old(self).connectors_spec(), id) {
                Some(e) => r == Err::<Vec<String>, ConnectorError>(e) && final(self).connectors_spec() == old(self).connectors_spec()
                    && final(self).next_message_spec() == old(self).next_message_spec()
                    && final(self).next_transaction_spec() == old(self).next_transaction_spec(),
                None => if !old(self).messages_left(2) || old(self).next_transaction_spec() == i32::MAX {
                    r == Err::<Vec<String>, ConnectorError>(ConnectorError::IdsExhausted)
                        && final(self).connectors_spec() == old(self).connectors_spec()
                        && final(self).next_transaction_spec() == old(self).next_transaction_spec()
                } else {
                    let c = old(self).connectors_spec()[id - 1];
                    let m = old(self).next_message_spec();
                    let tx = old(self).next_transaction_spec();
                    &&& r matches Ok(frames) && frame_texts(frames@) == seq![
                        start_frame(m, id, id_tag@, at),
                        status_frame((m + 1) as u64, id, c.error_code, ConnectorStatus::Charging, at),
                    ]
                    &&& final(self).connectors_spec() == old(self).connectors_spec().update(id - 1, charging(c, tx, id_tag@, at))
                    &&& final(self).next_message_spec() == m + 2
                    &&& final(self).next_transaction_spec() == tx + 1
                    &&& forall|j: int| 0 <= j < old(self).connectors_spec().len()
                        ==> (#[trigger] old(self).connectors_spec()[j]).transaction_id != Some(tx)
                },
            },
    {
        proof {
            use_type_invariant(&*self);
        }
        if id == 0 || id as usize > self.connectors.len() {
            return Err(ConnectorError::NoSuchConnector(id));
        }
        let c = self.at(id);
        if !c.cable_plugged {
            return Err(ConnectorError::CableRequired);
        }
        if c.status == ConnectorStatus::Faulted || c.status == ConnectorStatus::Unavailable {
            return Err(ConnectorError::NotAvailable(id));
        }
        if c.transaction_id.is_some() {
            return Err(ConnectorError::TransactionAlreadyActive(id));
        }
        if self.next_message_id > u64::MAX - 2 || self.next_transaction_id == i32::MAX {
            return Err(ConnectorError::IdsExhausted);
        }
        let code = c.error_code;
        let cid = c.id;
        let energy = c.energy_ws;
        proof {
            assert(bank_consistent(self.connectors_spec()));
            assert(transactions_below(self.connectors_spec(), self.next_transaction_spec()));
        }
        let tx = self.take_transaction_id();
        let next = Connector {
            id: cid,
            status: ConnectorStatus::Charging,
            error_code: code,
            cable_plugged: true,
            transaction_id: Some(tx),
            id_tag: Some(String::from_str(id_tag)),
            power_w: 7200,
            energy_ws: 0,
            last_update: Some(at),
        };
        self.replace((id - 1) as usize, next);
        let m = self.take_message_id();
        let m2 = self.take_message_id();
        let frames = vec![start_frame_text(m, id, id_tag, at), status_frame_text(m2, id, code, ConnectorStatus::Charging, at)];
        proof {
            assert(frame_texts(frames@) =~= seq![
                start_frame(m, id, id_tag@, at),
                status_frame(m2, id, code, ConnectorStatus::Charging, at),
            ]);
        }
        Ok(frames)
    }

    /// Stops the transaction of connector `id`: it becomes `Finishing` with
    /// no transaction and no power, and a StopTransaction (with the energy
    /// delivered, in Wh) and a StatusNotification are sent. Refused unless
    /// the connector exists and runs a transaction.
    pub fn stop_transaction(&mut self, id: u32, at: Timestamp) -> (r: Result<Vec<String>, ConnectorError>)
        ensures
            bank_consistent(final(self).connectors_spec()),
            match stop_refusal(old(self).connectors_spec(), id) {
                Some(e) => r == Err::<Vec<String>, ConnectorError>(e) && final(self).connectors_spec() == old(self).connectors_spec()
                    && final(self).next_message_spec() == old(self).next_message_spec(),
                None => if !old(self).messages_left(2) {
                    r == Err::<Vec<String>, ConnectorError>(ConnectorError::IdsExhausted)
                        && final(self).connectors_spec() == old(self).connectors_spec()
                } else {
                    let c = old(self).connectors_spec()[id - 1];
                    let m = old(self).next_message_spec();
                    &&& r matches Ok(frames) && frame_texts(frames@) == seq![
                        stop_frame(m, watt_hours(c.energy_ws), c.transaction_id->0, at),
                        status_frame((m + 1) as u64, id, c.error_code, ConnectorStatus::Finishing, at),
                    ]
                    &&& final(self).connectors_spec() == old(self).connectors_spec().update(id - 1, finishing(c, at))
                    &&& final(self).next_message_spec() == m + 2
                },
            },
            final(self).next_transaction_spec() == old(self).next_transaction_spec(),
    {
        proof {
            use_type_invariant(&*self);
        }
        if id == 0 || id as usize > self.connectors.len() {
            return Err(ConnectorError::NoSuchConnector(id));
        }
        let c = self.at(id);
        let tx = match c.transaction_id {
            Some(t) => t,
            None => {
                return Err(ConnectorError::NoActiveTransaction(id));
            },
        };
        if self.next_message_id > u64::MAX - 2 {
            return Err(ConnectorError::IdsExhausted);
        }
        let code = c.error_code;
        let energy = c.energy_ws;
        let next = Connector {
            id: c.id,
            status: ConnectorStatus::Finishing,
            error_code: code,
            cable_plugged: c.cable_plugged,
            transaction_id: None,
            id_tag: None,
            power_w: 0,
            energy_ws: energy,
            last_update: Some(at),
        };
        proof {
            assert(bank_consistent(self.connectors_spec()));
        }
        self.replace((id - 1) as usize, next);
        let m = self.take_message_id();
        let m2 = self.take_message_id();
        let frames = vec![stop_frame_text(m, energy / 3600, tx, at), status_frame_text(m2, id, code, ConnectorStatus::Finishing, at)];
        proof {
            assert(frame_texts(frames@) =~= seq![
                stop_frame(m, watt_hours(energy), tx, at),
                status_frame(m2, id, code, ConnectorStatus::Finishing, at),
            ]);
        }
        Ok(frames)
    }

    /// Ends the pause after a stop: a `Finishing` connector goes back to
    /// `Preparing` and a StatusNotification is sent; any other connector is
    /// left as it is, with nothing sent.
    pub fn complete_stop(&mut self, id: u32, at: Timestamp) -> (r: Result<Vec<String>, ConnectorError>)
        ensures
            bank_consistent(final(self).connectors_spec()),
            if !has_connector(old(self).connectors_spec(), id) {
                r == Err::<Vec<String>, ConnectorError>(ConnectorError::NoSuchConnector(id))
                    && final(self).connectors_spec() == old(self).connectors_spec()
                    && final(self).next_message_spec() == old(self).next_message_spec()
            } else if old(self).connectors_spec()[id - 1].status != ConnectorStatus::Finishing {
                r matches Ok(frames) && frames@.len() == 0 && final(self).connectors_spec() == old(self).connectors_spec()
                    && final(self).next_message_spec() == old(self).next_message_spec()
            } else if !old(self).messages_left(1) {
                r == Err::<Vec<String>, ConnectorError>(ConnectorError::IdsExhausted)
                    && final(self).connectors_spec() == old(self).connectors_spec()
            } else {
                let c = old(self).connectors_spec()[id - 1];
                &&& r matches Ok(frames) && frame_texts(frames@) == seq![
                    status_frame(old(self).next_message_spec(), id, c.error_code, ConnectorStatus::Preparing, at),
                ]
                &&& final(self).connectors_spec() == old(self).connectors_spec().update(id - 1, prepared(c, at))
                &&& final(self).next_message_spec() == old(self).next_message_spec() + 1
            },
            final(self).next_transaction_spec() == old(self).next_transaction_spec(),
    {
        proof {
            use_type_invariant(&*self);
        }
        if id == 0 || id as usize > self.connectors.len() {
            return Err(ConnectorError::NoSuchConnector(id));
        }
        let c = self.at(id);
        if c.status != ConnectorStatus::Finishing {
            return Ok(Vec::new());
        }
        if self.next_message_id > u64::MAX - 1 {
            return Err(ConnectorError::IdsExhausted);
        }
        let code = c.error_code;
        let next = Connector {
            id: c.id,
            status: ConnectorStatus::Preparing,
            error_code: code,
            cable_plugged: c.cable_plugged,
            transaction_id: c.transaction_id,
            id_tag: clone_tag(&c.id_tag),
            power_w: c.power_w,
            energy_ws: c.energy_ws,
            last_update: Some(at),
        };
        proof {
            assert(bank_consistent(self.connectors_spec()));
            assert(transactions_below(self.connectors_spec(), self.next_transaction_spec()));
        }
        self.replace((id - 1) as usize, next);
        let m = self.take_message_id();
        let frames = vec![status_frame_text(m, id, code, ConnectorStatus::Preparing, at)];
        proof {
            assert(frame_texts(frames@) =~= seq![status_frame(m, id, code, ConnectorStatus::Preparing, at)]);
        }
        Ok(frames)
    }

    /// Sets the availability of connector `id`, and a StatusNotification is
    /// sent. Refused unless the connector exists; while it runs a
    /// transaction, only making it available is allowed.
    pub fn set_availability(&mut self, id: u32, availability: Availability, at: Timestamp) -> (r: Result<Vec<String>, ConnectorError>)
        ensures
            bank_consistent(final(self).connectors_spec()),
            match availability_refusal(old(self).connectors_spec(), id, availability) {
                Some(e) => r == Err::<Vec<String>, ConnectorError>(e) && final(self).connectors_spec() == old(self).connectors_spec()
                    && final(self).next_message_spec() == old(self).next_message_spec(),
                None => if !old(self).messages_left(1) {
                    r == Err::<Vec<String>, ConnectorError>(ConnectorError::IdsExhausted)
                        && final(self).connectors_spec() == old(self).connectors_spec()
                } else {
                    let c = old(self).connectors_spec()[id - 1];
                    &&& r matches Ok(frames) && frame_texts(frames@) == seq![
                        status_frame(old(self).next_message_spec(), id, c.error_code, availability_status(availability), at),
                    ]
                    &&& final(self).connectors_spec() == old(self).connectors_spec().update(id - 1, made(c, availability, at))
                    &&& final(self).next_message_spec() == old(self).next_message_spec() + 1
                },
            },
            final(self).next_transaction_spec() == old(self).next_transaction_spec(),
    {
        proof {
            use_type_invariant(&*self);
        }
        if id == 0 || id as usize > self.connectors.len() {
            return Err(ConnectorError::NoSuchConnector(id));
        }
        let c = self.at(id);
        if c.transaction_id.is_some() && availability != Availability::Available {
            return Err(ConnectorError::AvailabilityLocked(id));
        }
        if self.next_message_id > u64::MAX - 1 {
            return Err(ConnectorError::IdsExhausted);
        }
        let status = match availability {
            Availability::Available => ConnectorStatus::Available,
            Availability::Unavailable => ConnectorStatus::Unavailable,
            Availability::Faulted => ConnectorStatus::Faulted,
        };
        let code = c.error_code;
        let next = Connector {
            id: c.id,
            status,
            error_code: code,
            cable_plugged: c.cable_plugged,
            transaction_id: c.transaction_id,
            id_tag: clone_tag(&c.id_tag),
            power_w: c.power_w,
            energy_ws: c.energy_ws,
            last_update: Some(at),
        };
        proof {
            assert(bank_consistent(self.connectors_spec()));
            assert(transactions_below(self.connectors_spec(), self.next_transaction_spec()));
        }
        self.replace((id - 1) as usize, next);
        let m = self.take_message_id();
        let frames = vec![status_frame_text(m, id, code, status, at)];
        proof {
            assert(frame_texts(frames@) =~= seq![status_frame(m, id, code, status, at)]);
        }
        Ok(frames)
    }

    /// Lets `secs` seconds pass: every running transaction delivers its power
    /// over that time.
    pub fn tick(&mut self, secs: u64)
        ensures
            bank_consistent(final(self).connectors_spec()),
            final(self).connectors_spec().len() == old(self).connectors_spec().len(),
            forall|i: int| 0 <= i < old(self).connectors_spec().len() ==> (#[trigger] final(self).connectors_spec()[i])
                == after_seconds(old(self).connectors_spec()[i], secs),
            final(self).next_message_spec() == old(self).next_message_spec(),
            final(self).next_transaction_spec() == old(self).next_transaction_spec(),
    {
        proof {
            use_type_invariant(&*self);
        }
        let n = self.connectors.len();
        let ghost before = self.connectors_spec();
        let mut i: usize = 0;
        while i < n
            invariant
                n == self.connectors_spec().len(),
                before.len() == n,
                0 <= i <= n,
                forall|j: int| 0 <= j < i ==> (#[trigger] self.connectors_spec()[j]) == after_seconds(before[j], secs),
                forall|j: int| i <= j < n ==> (#[trigger] self.connectors_spec()[j]) == before[j],
                self.next_message_spec() == old(self).next_message_spec(),
                self.next_transaction_spec() == old(self).next_transaction_spec(),
                bank_consistent(before),
                transactions_below(before, self.next_transaction_spec()),
            decreases n - i,
        {
            let c = &self.connectors[i];
            proof {
                assert(self.connectors_spec()[i as int] == self.connectors@[i as int]@);
                assert(c@ == before[i as int]);
            }
            if c.transaction_id.is_some() {
                let p: u128 = c.power_w as u128;
                let t: u128 = secs as u128;
                proof {
                    assert(p * t <= 0xFFFF_FFFFu128 * 0xFFFF_FFFF_FFFF_FFFFu128) by (nonlinear_arith)
                        requires
                            p <= 0xFFFF_FFFFu128,
                            t <= 0xFFFF_FFFF_FFFF_FFFFu128,
                    ;
                }
                let e: u128 = c.energy_ws as u128 + p * t;
                let energy: u64 = if e > u64::MAX as u128 { u64::MAX } else { e as u64 };
                let next = Connector {
                    id: c.id,
                    status: c.status,
                    error_code: c.error_code,
                    cable_plugged: c.cable_plugged,
                    transaction_id: c.transaction_id,
                    id_tag: clone_tag(&c.id_tag),
                    power_w: c.power_w,
                    energy_ws: energy,
                    last_update: c.last_update,
                };
                proof {
                    assert(next@ == after_seconds(before[i as int], secs)) by (nonlinear_arith)
                        requires
                            e == c.energy_ws + c.power_w * secs,
                            next.energy_ws == (if e > u64::MAX { u64::MAX } else { e as u64 }),
                            next@ == (ConnectorView { energy_ws: next.energy_ws, ..c@ }),
                            c@ == before[i as int],
                            c.transaction_id is Some,
                    ;
                }
                self.replace(i, next);
            }
            i = i + 1;
        }
    }
}

/// A cable can never be unplugged while its connector runs a transaction.
pub proof fn lemma_no_unplug_while_charging(cs: Seq<ConnectorView>, id: u32)
    requires
        has_connector(cs, id),
        cs[id - 1].transaction_id is Some,
    ensures
        plug_out_refusal(cs, id) is Some,
{
}

/// A transaction can only start on a connector with a cable plugged in.
pub proof fn lemma_start_needs_cable(cs: Seq<ConnectorView>, id: u32)
    requires
        start_refusal(cs, id) is None,
    ensures
        has_connector(cs, id),
        cs[id - 1].cable_plugged,
        cs[id - 1].transaction_id is None,
        cs[id - 1].status != ConnectorStatus::Faulted,
        cs[id - 1].status != ConnectorStatus::Unavailable,
{
}

/// Changing the availability of a connector that runs a transaction is
/// refused, naming the connector, for every availability but `Available`,
/// and a connector without a transaction takes any availability. So an
/// accepted change never leaves a running transaction on a connector that
/// is not `Available`.
pub proof fn lemma_availability_locked_during_transaction(cs: Seq<ConnectorView>, id: u32, a: Availability, at: Timestamp)
    ensures
        has_connector(cs, id) && cs[id - 1].transaction_id is Some && a != Availability::Available
            ==> availability_refusal(cs, id, a) == Some(ConnectorError::AvailabilityLocked(id)),
        has_connector(cs, id) && cs[id - 1].transaction_id is None ==> availability_refusal(cs, id, a) is None,
        !has_connector(cs, id) ==> availability_refusal(cs, id, a) == Some(ConnectorError::NoSuchConnector(id)),
        availability_refusal(cs, id, a) is None && made(cs[id - 1], a, at).transaction_id is Some
            ==> made(cs[id - 1], a, at).status == ConnectorStatus::Available,
{
}

/// A cable is plugged in exactly on an existing, available connector
/// without one; a transaction is stopped exactly on an existing connector
/// that runs one.
pub proof fn lemma_plug_in_and_stop_accepted(cs: Seq<ConnectorView>, id: u32)
    ensures
        plug_in_refusal(cs, id) is None <==> (has_connector(cs, id) && cs[id - 1].status == ConnectorStatus::Available
            && !cs[id - 1].cable_plugged),
        stop_refusal(cs, id) is None <==> (has_connector(cs, id) && cs[id - 1].transaction_id is Some),
{
}

/// A full session — plug in, start, stop, back to preparing, unplug — leaves
/// an available connector with no cable, no transaction and no power, each
/// step allowed in turn.
pub proof fn lemma_charging_session(c: ConnectorView, tx: i32, id_tag: Seq<char>, t1: Timestamp, t2: Timestamp, t3: Timestamp, t4: Timestamp, t5: Timestamp)
    requires
        c.status == ConnectorStatus::Available,
        !c.cable_plugged,
        c.transaction_id is None,
    ensures
        ({
            let a = plugged_in(c, t1);
            let b = charging(a, tx, id_tag, t2);
            let f = finishing(b, t3);
            let p = prepared(f, t4);
            let o = plugged_out(p, t5);
            &&& a.status == ConnectorStatus::Preparing && a.cable_plugged
            &&& b.status == ConnectorStatus::Charging && b.transaction_id == Some(tx) && b.power_w == charging_power()
            &&& f.status == ConnectorStatus::Finishing && f.transaction_id is None && f.power_w == 0
            &&& p.status == ConnectorStatus::Preparing && p.cable_plugged
            &&& o.status == ConnectorStatus::Available && !o.cable_plugged && o.transaction_id is None && o.power_w == 0
        }),
{
}

/// Power in kW with one decimal, from watts: 7200 W is `7.2`.
pub open spec fn kilowatts_text(w: u32) -> Seq<char> {
    decimal((w / 1000) as nat) + "."@ + decimal(((w % 1000) / 100) as nat)
}

/// A number below 100 in two digits.
pub open spec fn two_digits(n: u64) -> Seq<char> {
    if n < 10 { "0"@ + decimal(n as nat) } else { decimal(n as nat) }
}

/// Energy in kWh with two decimals, from watt-seconds (rounded down).
pub open spec fn kilowatt_hours_text(ws: u64) -> Seq<char> {
    decimal((ws / 3_600_000) as nat) + "."@ + two_digits(((ws / 36_000) % 100) as u64)
}

/// The one-line status of a connector: a plug when a cable is in, its
/// number and status, and for a running transaction its number and power.
pub open spec fn status_line_spec(c: ConnectorView) -> Seq<char> {
    (if c.cable_plugged { "🔌"@ } else { "⚪"@ }) + " Connector "@ + decimal(c.id as nat) + ": "@ + c.status.name() + " "@
        + match c.transaction_id {
            Some(t) => "(Tx: "@ + signed_decimal(t as int) + ") "@ + kilowatts_text(c.power_w) + "kW"@,
            None => seq![],
        }
}

/// Power in kW with one decimal.
pub fn kilowatts(w: u32) -> (r: String)
    ensures
        r@ == kilowatts_text(w),
{
    let mut s = u64_to_text((w / 1000) as u64);
    s.append(".");
    s.append(u64_to_text(((w % 1000) / 100) as u64).as_str());
    s
}

/// Energy in kWh with two decimals.
pub fn kilowatt_hours(ws: u64) -> (r: String)
    ensures
        r@ == kilowatt_hours_text(ws),
{
    let mut s = u64_to_text(ws / 3_600_000);
    s.append(".");
    let h = (ws / 36_000) % 100;
    if h < 10 {
        s.append("0");
    }
    s.append(u64_to_text(h).as_str());
    s
}

impl Connector {
    /// The one-line status of the connector.
    pub fn status_line(&self) -> (r: String)
        ensures
            r@ == status_line_spec(self@),
    {
        let mut s = String::from_str(if self.cable_plugged { "🔌" } else { "⚪" });
        s.append(" Connector ");
        s.append(u64_to_text(self.id as u64).as_str());
        s.append(": ");
        s.append(self.status.as_str());
        s.append(" ");
        if let Some(t) = self.transaction_id {
            s.append("(Tx: ");
            s.append(i64_to_text(t as i64).as_str());
            s.append(") ");
            s.append(kilowatts(self.power_w).as_str());
            s.append("kW");
        }
        s
    }
}

} // verus!
