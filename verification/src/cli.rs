//! What the CLI charge point simulator answers to the central system's
//! messages, the BootNotification it sends, and how it shows durations and
//! reads log levels.

use vstd::prelude::*;
use crate::client::{parse_url, url_parts};
use crate::json::{opt_text, json_array_items, json_as_i64, json_as_string, json_member, json_quoted, json_read, texts_of, JsonValue};
use crate::numbers::{chars_of, min_int, same_ignoring_case, same_ignoring_case_vec};
use crate::text::{decimal, str_eq, u64_to_text};
use crate::time::{rfc3339_text, Timestamp};

verus! {

/// A JSON string literal, as text.
fn quoted(s: &str) -> (r: String)
    ensures
        r@ == json_quoted(s@),
{
    JsonValue::string(s).to_string()
}

/// The DataTransfer reply payload's `data` and `status`: vendor `1` is
/// accepted (a QR code message gets a report of the displayed code, stamped
/// `now`; any other message gets its data back), every other vendor is unknown.
pub open spec fn data_transfer_outcome(
    vendor_id: Seq<char>,
    message_id: Option<Seq<char>>,
    data: Option<Seq<char>>,
    now: Seq<char>,
) -> (Seq<char>, Seq<char>) {
    if vendor_id == "1"@ {
        if message_id == Some("Qrcode"@) {
            (json_quoted(qr_report(now)), "Accepted"@)
        } else {
            match data {
                Some(d) => (json_quoted(d), "Accepted"@),
                None => (json_quoted(""@), "Accepted"@),
            }
        }
    } else {
        (json_quoted(""@), "UnknownVendorId"@)
    }
}

/// The report of a displayed QR code, as JSON text.
pub open spec fn qr_report(now: Seq<char>) -> Seq<char> {
    "{\"qr_code_displayed\":true,\"result\":\"success\",\"timestamp\":"@ + json_quoted(now) + "}"@
}

/// A CALLRESULT frame with the given payload text.
pub open spec fn call_result_frame(message_id: Seq<char>, payload: Seq<char>) -> Seq<char> {
    "[3,"@ + json_quoted(message_id) + ","@ + payload + "]"@
}

/// The reply to a DataTransfer call.
pub open spec fn data_transfer_reply_spec(
    message_id: Seq<char>,
    vendor_id: Seq<char>,
    transfer_id: Option<Seq<char>>,
    data: Option<Seq<char>>,
    now: Seq<char>,
) -> Seq<char> {
    let (d, status) = data_transfer_outcome(vendor_id, transfer_id, data, now);
    call_result_frame(message_id, "{\"data\":"@ + d + ",\"status\":"@ + json_quoted(status) + "}"@)
}

/// The payload of a plain acceptance.
pub open spec fn accepted_payload() -> Seq<char> {
    "{\"status\":\"Accepted\"}"@
}

/// The payload of a GetConfiguration reply: no keys, none unknown.
pub open spec fn configuration_payload() -> Seq<char> {
    "{\"configurationKey\":[],\"unknownKey\":[]}"@
}

/// The CALLERROR refusing an action the simulator does not support.
pub open spec fn not_supported_frame(message_id: Seq<char>, action: Seq<char>) -> Seq<char> {
    "[4,"@ + json_quoted(message_id) + ",\"NotSupported\","@
        + json_quoted("Action '"@ + action + "' is not supported"@) + ",{}]"@
}

/// Actions answered with a plain acceptance.
pub open spec fn accepts_plainly(action: Seq<char>) -> bool {
    action == "ChangeAvailability"@ || action == "RemoteStartTransaction"@ || action == "RemoteStopTransaction"@
        || action == "Reset"@ || action == "ChangeConfiguration"@
}

/// Builds the reply to a DataTransfer call.
pub fn data_transfer_reply(
    message_id: &str,
    vendor_id: &str,
    transfer_id: Option<&str>,
    data: Option<&str>,
    now: &str,
) -> (r: String)
    ensures
        r@ == data_transfer_reply_spec(
            message_id@,
            vendor_id@,
            match transfer_id { Some(t) => Some(t@), None => None },
            match data { Some(d) => Some(d@), None => None },
            now@,
        ),
{
    let is_vendor_one = str_eq(vendor_id, "1");
    let is_qr = match transfer_id {
        Some(t) => str_eq(t, "Qrcode"),
        None => false,
    };
    let data_text = if is_vendor_one && is_qr {
        let mut report = String::from_str("{\"qr_code_displayed\":true,\"result\":\"success\",\"timestamp\":");
        report.append(quoted(now).as_str());
        report.append("}");
        quoted(report.as_str())
    } else if is_vendor_one {
        match data {
            Some(d) => quoted(d),
            None => quoted(""),
        }
    } else {
        quoted("")
    };
    let status = if is_vendor_one { "Accepted" } else { "UnknownVendorId" };
    let mut payload = String::from_str("{\"data\":");
    payload.append(data_text.as_str());
    payload.append(",\"status\":");
    payload.append(quoted(status).as_str());
    payload.append("}");
    let mut r = String::from_str("[3,");
    r.append(quoted(message_id).as_str());
    r.append(",");
    r.append(payload.as_str());
    r.append("]");
    proof {
        assert(transfer_id matches Some(t) ==> (is_qr == (t@ == "Qrcode"@)));
    }
    r
}

/// The text of a string member of a JSON object, if it has one.
pub open spec fn member_string(payload: Seq<char>, key: Seq<char>) -> Option<Seq<char>> {
    match json_member(payload, key) {
        Some(m) => json_as_string(m),
        None => None,
    }
}

/// The reply to a CALL of `action`, given the call's payload and the time.
pub open spec fn call_reply_spec(message_id: Seq<char>, action: Seq<char>, payload: Seq<char>, now: Seq<char>) -> Seq<char> {
    if action == "DataTransfer"@ {
        data_transfer_reply_spec(
            message_id,
            match member_string(payload, "vendorId"@) { Some(v) => v, None => ""@ },
            member_string(payload, "messageId"@),
            member_string(payload, "data"@),
            now,
        )
    } else if accepts_plainly(action) {
        call_result_frame(message_id, accepted_payload())
    } else if action == "GetConfiguration"@ {
        call_result_frame(message_id, configuration_payload())
    } else {
        not_supported_frame(message_id, action)
    }
}

fn member_text(payload: &JsonValue, key: &str) -> (r: Option<String>)
    ensures
        match r {
            Some(s) => member_string(payload@, key@) == Some(s@),
            None => member_string(payload@, key@) is None,
        },
{
    match payload.get(key) {
        Some(m) => m.as_str(),
        None => None,
    }
}

/// Builds the reply to a CALL of `action`.
pub fn call_reply(message_id: &str, action: &str, payload: &JsonValue, now: &str) -> (r: String)
    ensures
        r@ == call_reply_spec(message_id@, action@, payload@, now@),
{
    if str_eq(action, "DataTransfer") {
        let vendor = member_text(payload, "vendorId");
        let transfer = member_text(payload, "messageId");
        let data = member_text(payload, "data");
        let vendor_id: &str = match &vendor {
            Some(v) => v.as_str(),
            None => "",
        };
        let transfer_id: Option<&str> = match &transfer {
            Some(t) => Some(t.as_str()),
            None => None,
        };
        let data_text: Option<&str> = match &data {
            Some(d) => Some(d.as_str()),
            None => None,
        };
        return data_transfer_reply(message_id, vendor_id, transfer_id, data_text, now);
    }
    let mut r = String::new();
    if str_eq(action, "ChangeAvailability") || str_eq(action, "RemoteStartTransaction") || str_eq(
        action,
        "RemoteStopTransaction",
    ) || str_eq(action, "Reset") || str_eq(action, "ChangeConfiguration") {
        r.append("[3,");
        r.append(quoted(message_id).as_str());
        r.append(",{\"status\":\"Accepted\"}]");
    } else if str_eq(action, "GetConfiguration") {
        r.append("[3,");
        r.append(quoted(message_id).as_str());
        r.append(",{\"configurationKey\":[],\"unknownKey\":[]}]");
    } else {
        let mut text = String::from_str("Action '");
        text.append(action);
        text.append("' is not supported");
        r.append("[4,");
        r.append(quoted(message_id).as_str());
        r.append(",\"NotSupported\",");
        r.append(quoted(text.as_str()).as_str());
        r.append(",{}]");
    }
    proof {
        reveal_strlit("");
        reveal_strlit("[3,");
        reveal_strlit(",");
        reveal_strlit("]");
        reveal_strlit(",{\"status\":\"Accepted\"}]");
        reveal_strlit("{\"status\":\"Accepted\"}");
        reveal_strlit(",{\"configurationKey\":[],\"unknownKey\":[]}]");
        reveal_strlit("{\"configurationKey\":[],\"unknownKey\":[]}");
    }
    r
}

/// What each CALL is answered with: ChangeAvailability,
/// RemoteStartTransaction, RemoteStopTransaction, Reset and
/// ChangeConfiguration are accepted, GetConfiguration reports no keys, and
/// every action the simulator does not handle (all but these six and
/// DataTransfer) is refused with a NotSupported CALLERROR that names it.
pub proof fn lemma_call_answers(message_id: Seq<char>, action: Seq<char>, payload: Seq<char>, now: Seq<char>)
    ensures
        (action == "ChangeAvailability"@ || action == "RemoteStartTransaction"@
            || action == "RemoteStopTransaction"@ || action == "Reset"@ || action == "ChangeConfiguration"@)
            ==> call_reply_spec(message_id, action, payload, now)
                == "[3,"@ + json_quoted(message_id) + ",{\"status\":\"Accepted\"}]"@,
        action == "GetConfiguration"@ ==> call_reply_spec(message_id, action, payload, now)
            == "[3,"@ + json_quoted(message_id) + ",{\"configurationKey\":[],\"unknownKey\":[]}]"@,
        (action != "DataTransfer"@ && action != "ChangeAvailability"@ && action != "RemoteStartTransaction"@
            && action != "RemoteStopTransaction"@ && action != "Reset"@ && action != "ChangeConfiguration"@
            && action != "GetConfiguration"@) ==> call_reply_spec(message_id, action, payload, now)
                == "[4,"@ + json_quoted(message_id) + ",\"NotSupported\","@
                    + json_quoted("Action '"@ + action + "' is not supported"@) + ",{}]"@,
{
    reveal_strlit("DataTransfer");
    reveal_strlit("ChangeAvailability");
    reveal_strlit("RemoteStartTransaction");
    reveal_strlit("RemoteStopTransaction");
    reveal_strlit("Reset");
    reveal_strlit("ChangeConfiguration");
    reveal_strlit("GetConfiguration");
    reveal_strlit("[3,");
    reveal_strlit(",{\"status\":\"Accepted\"}]");
    reveal_strlit("{\"status\":\"Accepted\"}");
    reveal_strlit("]");
    reveal_strlit(",");
    reveal_strlit(",{\"configurationKey\":[],\"unknownKey\":[]}]");
    reveal_strlit("{\"configurationKey\":[],\"unknownKey\":[]}");
    let q = json_quoted(message_id);
    assert("DataTransfer"@.len() == 12);
    assert("GetConfiguration"@.len() == 16);
    assert("ChangeAvailability"@.len() == 18);
    assert("RemoteStartTransaction"@.len() == 22);
    assert("RemoteStopTransaction"@.len() == 21);
    assert("Reset"@.len() == 5);
    assert("ChangeConfiguration"@.len() == 19);
    if accepts_plainly(action) {
        assert(action != "DataTransfer"@);
        assert(call_reply_spec(message_id, action, payload, now) == call_result_frame(message_id, accepted_payload()));
        assert(call_result_frame(message_id, accepted_payload()) =~= "[3,"@ + q + ",{\"status\":\"Accepted\"}]"@);
    }
    if action == "GetConfiguration"@ {
        assert(call_reply_spec(message_id, action, payload, now) == call_result_frame(message_id, configuration_payload()));
        assert(call_result_frame(message_id, configuration_payload())
            =~= "[3,"@ + q + ",{\"configurationKey\":[],\"unknownKey\":[]}]"@);
    }
}

/// The reply to a frame whose elements are `items` (at least four): a CALL
/// (type 2) gets `call_reply_spec`, every other frame none. The type is read
/// as an integer (0 when it is not one), the ID and action as strings (empty
/// when they are not).
pub open spec fn frame_reply_spec(items: Seq<Seq<char>>, now: Seq<char>) -> Option<Seq<char>> {
    let message_type = match json_as_i64(items[0]) { Some(t) => t, None => 0 };
    let message_id = match json_as_string(items[1]) { Some(s) => s, None => ""@ };
    let action = match json_as_string(items[2]) { Some(s) => s, None => ""@ };
    if message_type == 2 {
        Some(call_reply_spec(message_id, action, items[3], now))
    } else {
        None
    }
}

/// The reply to a frame with the given elements.
pub fn frame_reply(items: &Vec<JsonValue>, now: &str) -> (r: Option<String>)
    requires
        items@.len() >= 4,
    ensures
        opt_text_of(r) == frame_reply_spec(texts_of(items@), now@),
{
    let message_type = match items[0].as_i64() {
        Some(t) => t,
        None => 0,
    };
    if message_type != 2 {
        return None;
    }
    let id = items[1].as_str();
    let action = items[2].as_str();
    let message_id: &str = match &id {
        Some(s) => s.as_str(),
        None => "",
    };
    let action_name: &str = match &action {
        Some(s) => s.as_str(),
        None => "",
    };
    proof {
        reveal_strlit("");
    }
    Some(call_reply(message_id, action_name, &items[3], now))
}

/// The view of an optional string.
pub open spec fn opt_text_of(s: Option<String>) -> Option<Seq<char>> {
    match s {
        Some(t) => Some(t@),
        None => None,
    }
}

/// The simulator's answer to a message text given the time: an error when
/// the text is not JSON, a reply to a CALL frame of at least four elements,
/// nothing otherwise.
pub open spec fn message_reply_spec(message: Seq<char>, now: Seq<char>) -> Result<Option<Seq<char>>, Seq<char>> {
    match json_read(message) {
        Err(e) => Err(e),
        Ok(text) => match json_array_items(text) {
            Some(items) => if items.len() >= 4 { Ok(frame_reply_spec(items, now)) } else { Ok(None) },
            None => Ok(None),
        },
    }
}

/// Answers a message from the central system, reading the clock for the
/// replies that carry a timestamp: that timestamp is the RFC 3339 text of
/// the instant read. Every message is counted, whether it can
/// be read or not; nothing else of the simulator changes.
pub fn handle_message(message: &str, simulator: &mut SimulatorState) -> (r: Result<Option<String>, String>)
    requires
        old(simulator).message_count < u64::MAX,
    ensures
        final(simulator).message_count == old(simulator).message_count + 1,
        final(simulator).connected == old(simulator).connected,
        final(simulator).start_time == old(simulator).start_time,
        final(simulator).charge_point_id == old(simulator).charge_point_id,
        final(simulator).connectors == old(simulator).connectors,
        exists|secs: i64, nanos: u32|
            nanos < 2_000_000_000 && #[trigger] message_reply_spec(message@, rfc3339_text(secs, nanos)) == match r {
                Ok(reply) => Ok(opt_text_of(reply)),
                Err(e) => Err(e@),
            },
{
    simulator.record_message();
    let clock = Timestamp::now();
    let now = clock.to_rfc3339();
    let r = match JsonValue::parse(message) {
        Err(e) => Err(e),
        Ok(value) => match value.as_array() {
            Some(items) => if items.len() >= 4 {
                Ok(frame_reply(&items, now.as_str()))
            } else {
                Ok(None)
            },
            None => Ok(None),
        },
    };
    proof {
        assert(message_reply_spec(message@, rfc3339_text(clock.secs, clock.nanos)) == match r {
            Ok(reply) => Ok(opt_text_of(reply)),
            Err(e) => Err(e@),
        });
    }
    r
}

/// The BootNotification CALL the simulator sends for a charge point.
pub open spec fn boot_notification_spec(charge_point_id: Seq<char>) -> Seq<char> {
    "[2,\"1\",\"BootNotification\",{\"chargePointModel\":\"CLI-Simulator\",\"chargePointSerialNumber\":"@
        + json_quoted(charge_point_id) + ",\"chargePointVendor\":\"OCPP-RS\",\"firmwareVersion\":\"1.0.0\"}]"@
}

/// Builds the BootNotification CALL for a charge point.
pub fn create_boot_notification(charge_point_id: &str) -> (r: String)
    ensures
        r@ == boot_notification_spec(charge_point_id@),
{
    let mut r = String::from_str(
        "[2,\"1\",\"BootNotification\",{\"chargePointModel\":\"CLI-Simulator\",\"chargePointSerialNumber\":",
    );
    r.append(quoted(charge_point_id).as_str());
    r.append(",\"chargePointVendor\":\"OCPP-RS\",\"firmwareVersion\":\"1.0.0\"}]");
    r
}

/// A duration in whole seconds as hours, minutes and seconds, leaving out
/// leading zero units: `1h 2m 3s`, `2m 3s`, `3s`.
pub open spec fn duration_text(total_seconds: u64) -> Seq<char> {
    let hours = total_seconds / 3600;
    let minutes = (total_seconds % 3600) / 60;
    let seconds = total_seconds % 60;
    if hours > 0 {
        decimal(hours as nat) + "h "@ + decimal(minutes as nat) + "m "@ + decimal(seconds as nat) + "s"@
    } else if minutes > 0 {
        decimal(minutes as nat) + "m "@ + decimal(seconds as nat) + "s"@
    } else {
        decimal(seconds as nat) + "s"@
    }
}

/// Shows a duration given in whole seconds.
pub fn format_duration(total_seconds: u64) -> (r: String)
    ensures
        r@ == duration_text(total_seconds),
{
    let hours = total_seconds / 3600;
    let minutes = (total_seconds % 3600) / 60;
    let seconds = total_seconds % 60;
    let mut r = String::new();
    if hours > 0 {
        r.append(u64_to_text(hours).as_str());
        r.append("h ");
        r.append(u64_to_text(minutes).as_str());
        r.append("m ");
    } else if minutes > 0 {
        r.append(u64_to_text(minutes).as_str());
        r.append("m ");
    }
    r.append(u64_to_text(seconds).as_str());
    r.append("s");
    proof {
        reveal_strlit("");
    }
    r
}

/// Log levels of the CLI.
#[derive(Debug, Clone, Copy, PartialEq, Eq, Structural)]
pub enum LogLevel {
    Trace,
    Debug,
    Info,
    Warn,
    Error,
}

/// The log level a name selects, ignoring case; any other name selects `Info`.
pub open spec fn log_level_spec(name: Seq<char>) -> LogLevel {
    if same_ignoring_case(name, "trace"@) {
        LogLevel::Trace
    } else if same_ignoring_case(name, "debug"@) {
        LogLevel::Debug
    } else if same_ignoring_case(name, "info"@) {
        LogLevel::Info
    } else if same_ignoring_case(name, "warn"@) {
        LogLevel::Warn
    } else if same_ignoring_case(name, "error"@) {
        LogLevel::Error
    } else {
        LogLevel::Info
    }
}

/// Reads a log level name.
pub fn log_level(name: &str) -> (r: LogLevel)
    ensures
        r == log_level_spec(name@),
{
    let v = chars_of(name);
    if same_ignoring_case_vec(&v, "trace") {
        LogLevel::Trace
    } else if same_ignoring_case_vec(&v, "debug") {
        LogLevel::Debug
    } else if same_ignoring_case_vec(&v, "info") {
        LogLevel::Info
    } else if same_ignoring_case_vec(&v, "warn") {
        LogLevel::Warn
    } else if same_ignoring_case_vec(&v, "error") {
        LogLevel::Error
    } else {
        LogLevel::Info
    }
}

/// Where the simulator opens its socket: host, port, and whether TLS is used.
#[derive(Debug)]
pub struct Endpoint {
    pub host: String,
    pub port: u16,
    pub tls: bool,
}

/// The endpoint of a URL with the given scheme, host and explicit port: TLS
/// for `wss`, the explicit port or else 443 with TLS and 80 without; an
/// error when the URL has no host.
pub open spec fn endpoint_spec(scheme: Seq<char>, host: Option<Seq<char>>, port: Option<u16>) -> Result<(Seq<char>, u16, bool), Seq<char>> {
    match host {
        None => Err("No host in URL"@),
        Some(h) => Ok((
            h,
            match port {
                Some(p) => p,
                None => if scheme == "wss"@ { 443u16 } else { 80u16 },
            },
            scheme == "wss"@,
        )),
    }
}

/// The view of an endpoint result.
pub open spec fn endpoint_view(r: Result<Endpoint, String>) -> Result<(Seq<char>, u16, bool), Seq<char>> {
    match r {
        Ok(e) => Ok((e.host@, e.port, e.tls)),
        Err(m) => Err(m@),
    }
}

/// The endpoint of a URL with the given scheme, host and explicit port.
pub fn endpoint_of(scheme: &str, host: Option<&str>, port: Option<u16>) -> (r: Result<Endpoint, String>)
    ensures
        endpoint_view(r) == endpoint_spec(
            scheme@,
            match host { Some(h) => Some(h@), None => None },
            port,
        ),
{
    let tls = str_eq(scheme, "wss");
    match host {
        None => Err(String::from_str("No host in URL")),
        Some(h) => {
            let port = match port {
                Some(p) => p,
                None => if tls { 443 } else { 80 },
            };
            Ok(Endpoint { host: String::from_str(h), port, tls })
        },
    }
}

/// The endpoint of a URL, or why there is none: the URL parser's error, or
/// a missing host.
pub fn resolve_endpoint(url: &str) -> (r: Result<Endpoint, String>)
    ensures
        endpoint_view(r) == match url_parts(url@) {
            Err(m) => Err(m),
            Ok((scheme, host, port)) => endpoint_spec(scheme, host, port),
        },
{
    match parse_url(url) {
        Err(m) => Err(m),
        Ok((scheme, host, port)) => {
            let h: Option<&str> = match &host {
                Some(t) => Some(t.as_str()),
                None => None,
            };
            proof {
                assert(opt_text(host) == match h { Some(t) => Some(t@), None => None::<Seq<char>> });
            }
            endpoint_of(scheme.as_str(), h, port)
        },
    }
}

/// The headers of the WebSocket upgrade request, in order: host, upgrade,
/// connection, the handshake key, version 13 and the `ocpp1.6` subprotocol.
pub open spec fn handshake_headers_spec(host: Seq<char>, key: Seq<char>) -> Seq<(Seq<char>, Seq<char>)> {
    seq![
        ("Host"@, host),
        ("Upgrade"@, "websocket"@),
        ("Connection"@, "Upgrade"@),
        ("Sec-WebSocket-Key"@, key),
        ("Sec-WebSocket-Version"@, "13"@),
        ("Sec-WebSocket-Protocol"@, "ocpp1.6"@),
    ]
}

/// The headers of the WebSocket upgrade request.
pub fn handshake_headers(host: &str, key: &str) -> (r: Vec<(String, String)>)
    ensures
        r@.map_values(|h: (String, String)| (h.0@, h.1@)) == handshake_headers_spec(host@, key@),
{
    let r = vec![
        (String::from_str("Host"), String::from_str(host)),
        (String::from_str("Upgrade"), String::from_str("websocket")),
        (String::from_str("Connection"), String::from_str("Upgrade")),
        (String::from_str("Sec-WebSocket-Key"), String::from_str(key)),
        (String::from_str("Sec-WebSocket-Version"), String::from_str("13")),
        (String::from_str("Sec-WebSocket-Protocol"), String::from_str("ocpp1.6")),
    ];
    proof {
        assert(r@.map_values(|h: (String, String)| (h.0@, h.1@)) =~= handshake_headers_spec(host@, key@));
    }
    r
}

/// What the simulator keeps of its session.
#[derive(Debug, Clone)]
pub struct SimulatorState {
    /// The charge point being simulated
    pub charge_point_id: String,
    /// How many connectors it has
    pub connectors: u32,
    /// Whether the socket is connected
    pub connected: bool,
    /// When the session started
    pub start_time: Timestamp,
    /// How many messages were received
    pub message_count: u64,
}

impl SimulatorState {
    /// A session starting now, not yet connected, with no message received.
    pub fn new(charge_point_id: String, connectors: u32, start_time: Timestamp) -> (r: Self)
        ensures
            r.charge_point_id == charge_point_id,
            r.connectors == connectors,
            !r.connected,
            r.start_time == start_time,
            r.message_count == 0,
    {
        SimulatorState { charge_point_id, connectors, connected: false, start_time, message_count: 0 }
    }

    /// Counts one more received message.
    pub fn record_message(&mut self)
        requires
            old(self).message_count < u64::MAX,
        ensures
            final(self).message_count == old(self).message_count + 1,
            final(self).connected == old(self).connected,
            final(self).start_time == old(self).start_time,
            final(self).charge_point_id == old(self).charge_point_id,
            final(self).connectors == old(self).connectors,
    {
        self.message_count = self.message_count + 1;
    }

    /// Whole seconds from the start of the session until `now`; zero when
    /// `now` is not after the start (and at most `u64::MAX`).
    pub fn uptime_seconds(&self, now: Timestamp) -> (r: u64)
        requires
            self.start_time.nanos < 2_000_000_000,
            now.nanos < 2_000_000_000,
        ensures
            r == if now.total_nanos() <= self.start_time.total_nanos() {
                0
            } else {
                min_int((now.total_nanos() - self.start_time.total_nanos()) / 1_000_000_000, u64::MAX as int)
            },
    {
        let start = self.start_time.secs as i128 * 1_000_000_000 + self.start_time.nanos as i128;
        let end = now.secs as i128 * 1_000_000_000 + now.nanos as i128;
        if end <= start {
            0
        } else {
            let q = (end - start) / 1_000_000_000;
            if q > u64::MAX as i128 {
                u64::MAX
            } else {
                q as u64
            }
        }
    }
}

} // verus!
