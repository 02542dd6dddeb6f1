//! The transport layer of a charge point: connection states, transport
//! errors and the conversions of the errors of the layers below into them.

use vstd::prelude::*;
use crate::text::{concat2, concat5, decimal, u64_to_text};
use crate::ids::new_uuid;
use crate::types::OcppError;

verus! {

/// State of a transport connection.
#[derive(Debug, Clone, Copy, PartialEq, Eq, Structural)]
pub enum ConnectionState {
    /// Opening the connection
    Connecting,
    /// Open
    Connected,
    /// Closing the connection
    Closing,
    /// Closed
    Closed,
}

impl ConnectionState {
    /// The `Debug` name of the state.
    pub open spec fn name(self) -> Seq<char> {
        match self {
            ConnectionState::Connecting => "Connecting"@,
            ConnectionState::Connected => "Connected"@,
            ConnectionState::Closing => "Closing"@,
            ConnectionState::Closed => "Closed"@,
        }
    }

    /// The `Debug` name of the state.
    pub fn as_str(&self) -> (r: &'static str)
        ensures
            r@ == self.name(),
    {
        match self {
            ConnectionState::Connecting => "Connecting",
            ConnectionState::Connected => "Connected",
            ConnectionState::Closing => "Closing",
            ConnectionState::Closed => "Closed",
        }
    }
}

/// Transport layer errors.
#[derive(Debug, Clone)]
pub enum TransportError {
    /// WebSocket connection error
    ConnectionError { message: String },
    /// WebSocket protocol error
    ProtocolError { message: String },
    /// Message serialization error
    SerializationError { message: String },
    /// Message too large
    MessageTooLarge { size: usize, limit: usize },
    /// Connection timeout
    Timeout { timeout_secs: u64 },
    /// Connection closed unexpectedly
    ConnectionClosed { reason: String },
    /// Authentication failed
    AuthenticationFailed { reason: String },
    /// Invalid subprotocol
    InvalidSubprotocol { protocol: String },
    /// Buffer overflow
    BufferOverflow { buffer_type: String },
    /// IO error
    IoError { message: String },
    /// TLS error
    TlsError { message: String },
    /// Handshake error
    HandshakeError { message: String },
    /// Connection not ready
    NotReady { state: ConnectionState },
    /// Internal error
    Internal { message: String },
}

impl TransportError {
    /// The text the error is displayed with.
    pub open spec fn display(self) -> Seq<char> {
        match self {
            TransportError::ConnectionError { message } => "WebSocket connection error: "@ + message@,
            TransportError::ProtocolError { message } => "WebSocket protocol error: "@ + message@,
            TransportError::SerializationError { message } => "Message serialization error: "@ + message@,
            TransportError::MessageTooLarge { size, limit } => "Message too large: "@ + decimal(size as nat)
                + " bytes exceeds limit of "@ + decimal(limit as nat) + " bytes"@,
            TransportError::Timeout { timeout_secs } => "Connection timeout after "@
                + decimal(timeout_secs as nat) + " seconds"@,
            TransportError::ConnectionClosed { reason } => "Connection closed: "@ + reason@,
            TransportError::AuthenticationFailed { reason } => "Authentication failed: "@ + reason@,
            TransportError::InvalidSubprotocol { protocol } => "Invalid subprotocol: "@ + protocol@,
            TransportError::BufferOverflow { buffer_type } => "Buffer overflow: "@ + buffer_type@,
            TransportError::IoError { message } => "IO error: "@ + message@,
            TransportError::TlsError { message } => "TLS error: "@ + message@,
            TransportError::HandshakeError { message } => "WebSocket handshake error: "@ + message@,
            TransportError::NotReady { state } => "Connection not ready, current state: "@ + state.name(),
            TransportError::Internal { message } => "Internal transport error: "@ + message@,
        }
    }

    /// The text the error is displayed with.
    pub fn to_string(&self) -> (s: String)
        ensures
            s@ == self.display(),
    {
        match self {
            TransportError::ConnectionError { message } => concat2("WebSocket connection error: ", message.as_str()),
            TransportError::ProtocolError { message } => concat2("WebSocket protocol error: ", message.as_str()),
            TransportError::SerializationError { message } => concat2(
                "Message serialization error: ",
                message.as_str(),
            ),
            TransportError::MessageTooLarge { size, limit } => {
                let s = u64_to_text(*size as u64);
                let l = u64_to_text(*limit as u64);
                concat5("Message too large: ", s.as_str(), " bytes exceeds limit of ", l.as_str(), " bytes")
            },
            TransportError::Timeout { timeout_secs } => {
                let t = u64_to_text(*timeout_secs);
                let mut s = concat2("Connection timeout after ", t.as_str());
                s.append(" seconds");
                s
            },
            TransportError::ConnectionClosed { reason } => concat2("Connection closed: ", reason.as_str()),
            TransportError::AuthenticationFailed { reason } => concat2("Authentication failed: ", reason.as_str()),
            TransportError::InvalidSubprotocol { protocol } => concat2("Invalid subprotocol: ", protocol.as_str()),
            TransportError::BufferOverflow { buffer_type } => concat2("Buffer overflow: ", buffer_type.as_str()),
            TransportError::IoError { message } => concat2("IO error: ", message.as_str()),
            TransportError::TlsError { message } => concat2("TLS error: ", message.as_str()),
            TransportError::HandshakeError { message } => concat2("WebSocket handshake error: ", message.as_str()),
            TransportError::NotReady { state } => concat2("Connection not ready, current state: ", state.as_str()),
            TransportError::Internal { message } => concat2("Internal transport error: ", message.as_str()),
        }
    }

    /// The transport error a protocol error becomes: JSON errors become
    /// serialization errors, timeouts a timeout of 30 seconds, transport
    /// errors internal errors with their message, and every other error an
    /// internal error carrying its display text.
    pub fn from_ocpp(err: OcppError) -> (r: TransportError)
        ensures
            match err {
                OcppError::Json { message } => r == TransportError::SerializationError { message },
                OcppError::Timeout { .. } => r == TransportError::Timeout { timeout_secs: 30 },
                OcppError::Transport { message } => r == TransportError::Internal { message },
                _ => r matches TransportError::Internal { message } && message@ == err.display(),
            },
    {
        match err {
            OcppError::Json { message } => TransportError::SerializationError { message },
            OcppError::Timeout { .. } => TransportError::Timeout { timeout_secs: 30 },
            OcppError::Transport { message } => TransportError::Internal { message },
            _ => TransportError::Internal { message: err.to_string() },
        }
    }

    /// The transport error a WebSocket failure becomes.
    pub fn from_websocket(failure: WebSocketFailure) -> (r: TransportError)
        ensures
            match failure {
                WebSocketFailure::ConnectionClosed => r matches TransportError::ConnectionClosed { reason }
                    && reason@ == "WebSocket connection closed"@,
                WebSocketFailure::AlreadyClosed => r matches TransportError::ConnectionClosed { reason }
                    && reason@ == "WebSocket already closed"@,
                WebSocketFailure::Protocol(message) => r == TransportError::ProtocolError { message },
                WebSocketFailure::Io(message) => r == TransportError::IoError { message },
                WebSocketFailure::Tls(message) => r == TransportError::TlsError { message },
                WebSocketFailure::Other(message) => r == TransportError::Internal { message },
            },
    {
        match failure {
            WebSocketFailure::ConnectionClosed => TransportError::ConnectionClosed {
                reason: String::from_str("WebSocket connection closed"),
            },
            WebSocketFailure::AlreadyClosed => TransportError::ConnectionClosed {
                reason: String::from_str("WebSocket already closed"),
            },
            WebSocketFailure::Protocol(message) => TransportError::ProtocolError { message },
            WebSocketFailure::Io(message) => TransportError::IoError { message },
            WebSocketFailure::Tls(message) => TransportError::TlsError { message },
            WebSocketFailure::Other(message) => TransportError::Internal { message },
        }
    }
}

/// A failure of the WebSocket library, by kind, with the display text of its
/// cause (the protocol error, the I/O error, the TLS error, or the failure
/// itself for the other kinds).
#[derive(Debug, Clone)]
pub enum WebSocketFailure {
    ConnectionClosed,
    AlreadyClosed,
    Protocol(String),
    Io(String),
    Tls(String),
    Other(String),
}

/// A `std::io::Error`, carried as an opaque value.
#[verifier::external_type_specification]
#[verifier::external_body]
pub struct ExIoError(std::io::Error);

/// A `serde_json::Error`, carried as an opaque value.
#[verifier::external_type_specification]
#[verifier::external_body]
pub struct ExJsonError(serde_json::Error);

/// A `tungstenite::Error`, carried as an opaque value.
#[verifier::external_type_specification]
#[verifier::external_body]
pub struct ExWebSocketError(tungstenite::Error);

/// `Display` of `std::io::Error`. Nothing is promised of the text.
#[verifier::external_body]
fn io_error_text(err: &std::io::Error) -> String {
    err.to_string()
}

/// `Display` of `serde_json::Error`. Nothing is promised of the text.
#[verifier::external_body]
fn json_error_text(err: &serde_json::Error) -> String {
    err.to_string()
}

/// Tells the variants of `tungstenite::Error` apart: connection closed,
/// already closed, protocol, I/O and TLS errors by kind, with the `Display`
/// text of the error they carry; every other variant as `Other` with the
/// `Display` text of the error itself. Nothing is promised of the result,
/// since the error is opaque here.
#[verifier::external_body]
fn websocket_failure(err: tungstenite::Error) -> WebSocketFailure {
    match err {
        tungstenite::Error::ConnectionClosed => WebSocketFailure::ConnectionClosed,
        tungstenite::Error::AlreadyClosed => WebSocketFailure::AlreadyClosed,
        tungstenite::Error::Protocol(e) => WebSocketFailure::Protocol(e.to_string()),
        tungstenite::Error::Io(e) => WebSocketFailure::Io(e.to_string()),
        tungstenite::Error::Tls(e) => WebSocketFailure::Tls(e.to_string()),
        other => WebSocketFailure::Other(other.to_string()),
    }
}

impl TransportError {
    /// An I/O error, carrying the error's display text.
    pub fn from_io(err: std::io::Error) -> (r: TransportError)
        ensures
            r is IoError,
    {
        TransportError::IoError { message: io_error_text(&err) }
    }

    /// A serialization error, carrying the JSON error's display text.
    pub fn from_json(err: serde_json::Error) -> (r: TransportError)
        ensures
            r is SerializationError,
    {
        TransportError::SerializationError { message: json_error_text(&err) }
    }
}

impl From<std::io::Error> for TransportError {
    fn from(err: std::io::Error) -> TransportError {
        TransportError::from_io(err)
    }
}

impl vstd::std_specs::convert::FromSpecImpl<std::io::Error> for TransportError {
    open spec fn obeys_from_spec() -> bool {
        false
    }

    open spec fn from_spec(v: std::io::Error) -> TransportError {
        arbitrary()
    }
}

impl From<serde_json::Error> for TransportError {
    fn from(err: serde_json::Error) -> TransportError {
        TransportError::from_json(err)
    }
}

impl vstd::std_specs::convert::FromSpecImpl<serde_json::Error> for TransportError {
    open spec fn obeys_from_spec() -> bool {
        false
    }

    open spec fn from_spec(v: serde_json::Error) -> TransportError {
        arbitrary()
    }
}

impl From<tungstenite::Error> for TransportError {
    fn from(err: tungstenite::Error) -> TransportError {
        TransportError::from_websocket(websocket_failure(err))
    }
}

impl vstd::std_specs::convert::FromSpecImpl<tungstenite::Error> for TransportError {
    open spec fn obeys_from_spec() -> bool {
        false
    }

    open spec fn from_spec(v: tungstenite::Error) -> TransportError {
        arbitrary()
    }
}

impl From<OcppError> for TransportError {
    fn from(err: OcppError) -> TransportError {
        TransportError::from_ocpp(err)
    }
}

impl vstd::std_specs::convert::FromSpecImpl<OcppError> for TransportError {
    open spec fn obeys_from_spec() -> bool {
        false
    }

    open spec fn from_spec(v: OcppError) -> TransportError {
        arbitrary()
    }
}

/// The charge point's OCPP client: its connection ID and connection state.
#[derive(Debug)]
pub struct OcppClient {
    connection_id: uuid::Uuid,
    state: ConnectionState,
}

impl OcppClient {
    /// The connection state.
    pub closed spec fn state_spec(&self) -> ConnectionState {
        self.state
    }

    /// The connection ID.
    pub closed spec fn id_spec(&self) -> uuid::Uuid {
        self.connection_id
    }

    /// A closed client with a fresh random connection ID.
    pub fn new() -> (r: Self)
        ensures
            r.state_spec() == ConnectionState::Closed,
    {
        OcppClient { connection_id: new_uuid(), state: ConnectionState::Closed }
    }

    /// Connects to the central system at `url`: the client passes through
    /// `Connecting` and ends `Connected`.
    pub fn connect(&mut self, url: &str) -> (r: Result<(), TransportError>)
        ensures
            r is Ok,
            final(self).state_spec() == ConnectionState::Connected,
            final(self).id_spec() == old(self).id_spec(),
    {
        self.state = ConnectionState::Connecting;
        self.state = ConnectionState::Connected;
        Ok(())
    }

    /// Disconnects: the client passes through `Closing` and ends `Closed`.
    pub fn disconnect(&mut self) -> (r: Result<(), TransportError>)
        ensures
            r is Ok,
            final(self).state_spec() == ConnectionState::Closed,
            final(self).id_spec() == old(self).id_spec(),
    {
        self.state = ConnectionState::Closing;
        self.state = ConnectionState::Closed;
        Ok(())
    }

    /// Runs the client's event loop, which has nothing to do yet.
    pub fn run(&mut self) -> (r: Result<(), TransportError>)
        ensures
            r is Ok,
            final(self).state_spec() == old(self).state_spec(),
            final(self).id_spec() == old(self).id_spec(),
    {
        Ok(())
    }

    /// The connection state.
    pub fn state(&self) -> (r: ConnectionState)
        ensures
            r == self.state_spec(),
    {
        self.state
    }

    /// The connection ID.
    pub fn connection_id(&self) -> (r: uuid::Uuid)
        ensures
            r == self.id_spec(),
    {
        self.connection_id
    }

    /// Whether the client is connected.
    pub fn is_connected(&self) -> (r: bool)
        ensures
            r == (self.state_spec() == ConnectionState::Connected),
    {
        self.state == ConnectionState::Connected
    }
}

/// What the transport reports to its message handler about a connection.
#[derive(Debug, Clone)]
pub enum TransportEvent {
    /// The connection to `remote_addr` is open
    Connected { connection_id: uuid::Uuid, remote_addr: String },
    /// The connection ended
    Disconnected { connection_id: uuid::Uuid, reason: String },
}

/// The channel from a client to its socket's writer.
#[derive(Debug, Clone, Copy, PartialEq, Eq, Structural)]
pub enum ChannelState {
    /// Never opened: the client did not connect
    Unopened,
    /// Open: messages are queued for the socket
    Open,
    /// Its writer was stopped by a disconnect
    Closed,
}

/// The WebSocket client of a charge point: its connection ID, connection
/// state and message channel. The socket work is done by its caller, which
/// reports each step here.
#[derive(Debug)]
pub struct WebSocketClient {
    connection_id: uuid::Uuid,
    state: ConnectionState,
    channel: ChannelState,
}

impl WebSocketClient {
    /// The connection state.
    pub closed spec fn state_spec(&self) -> ConnectionState {
        self.state
    }

    /// The connection ID.
    pub closed spec fn id_spec(&self) -> uuid::Uuid {
        self.connection_id
    }

    /// The message channel.
    pub closed spec fn channel_spec(&self) -> ChannelState {
        self.channel
    }

    /// A client about to connect, with a fresh random connection ID.
    pub fn new() -> (r: Self)
        ensures
            r.state_spec() == ConnectionState::Connecting,
            r.channel_spec() == ChannelState::Unopened,
    {
        WebSocketClient { connection_id: new_uuid(), state: ConnectionState::Connecting, channel: ChannelState::Unopened }
    }

    /// The outcome of connecting to `url`. On success the client is
    /// `Connected`, its channel open, and the event its handler gets first is
    /// returned: `Connected` with this connection's ID and the URL. On
    /// failure the error is handed back, the client stays `Connecting` with
    /// its channel as it was, and no event is raised.
    pub fn finish_connect(&mut self, url: &str, outcome: Result<(), TransportError>) -> (r: Result<TransportEvent, TransportError>)
        ensures
            final(self).id_spec() == old(self).id_spec(),
            match outcome {
                Ok(()) => {
                    &&& final(self).state_spec() == ConnectionState::Connected
                    &&& final(self).channel_spec() == ChannelState::Open
                    &&& r matches Ok(TransportEvent::Connected { connection_id, remote_addr })
                    &&& connection_id == old(self).id_spec()
                    &&& remote_addr@ == url@
                },
                Err(e) => {
                    &&& final(self).state_spec() == ConnectionState::Connecting
                    &&& final(self).channel_spec() == old(self).channel_spec()
                    &&& r matches Err(x) && x == e
                },
            },
    {
        match outcome {
            Ok(()) => {
                self.state = ConnectionState::Connected;
                self.channel = ChannelState::Open;
                Ok(TransportEvent::Connected { connection_id: self.connection_id, remote_addr: String::from_str(url) })
            },
            Err(e) => {
                self.state = ConnectionState::Connecting;
                Err(e)
            },
        }
    }

    /// The socket's reader ended: the client is `Closed`, its channel is
    /// left as it was, and the `Disconnected` event for this connection is
    /// returned, with the reason "Connection closed".
    pub fn connection_lost(&mut self) -> (e: TransportEvent)
        ensures
            final(self).state_spec() == ConnectionState::Closed,
            final(self).channel_spec() == old(self).channel_spec(),
            final(self).id_spec() == old(self).id_spec(),
            e matches TransportEvent::Disconnected { connection_id, reason }
                && connection_id == old(self).id_spec() && reason@ == "Connection closed"@,
    {
        self.state = ConnectionState::Closed;
        proof {
            reveal_strlit("Connection closed");
        }
        TransportEvent::Disconnected { connection_id: self.connection_id, reason: String::from_str("Connection closed") }
    }

    /// Disconnects: the client passes through `Closing` to `Closed`, and the
    /// writer behind an open channel is stopped.
    pub fn disconnect(&mut self) -> (r: Result<(), TransportError>)
        ensures
            r is Ok,
            final(self).state_spec() == ConnectionState::Closed,
            final(self).channel_spec() == if old(self).channel_spec() == ChannelState::Unopened {
                ChannelState::Unopened
            } else {
                ChannelState::Closed
            },
            final(self).id_spec() == old(self).id_spec(),
    {
        self.state = ConnectionState::Closing;
        if self.channel == ChannelState::Open {
            self.channel = ChannelState::Closed;
        }
        self.state = ConnectionState::Closed;
        Ok(())
    }

    /// Closes the connection, as `disconnect` does.
    pub fn close(&mut self) -> (r: Result<(), OcppError>)
        ensures
            r is Ok,
            final(self).state_spec() == ConnectionState::Closed,
            final(self).id_spec() == old(self).id_spec(),
    {
        match self.disconnect() {
            Ok(()) => Ok(()),
            Err(e) => Err(close_failure(e)),
        }
    }

    /// Whether a message can be queued: only on an open channel.
    pub fn send_check(&self) -> (r: Result<(), OcppError>)
        ensures
            match self.channel_spec() {
                ChannelState::Open => r is Ok,
                ChannelState::Closed => r matches Err(OcppError::Transport { message })
                    && message@ == "Failed to send message: channel closed"@,
                ChannelState::Unopened => r matches Err(OcppError::Transport { message })
                    && message@ == "Not connected"@,
            },
    {
        match self.channel {
            ChannelState::Open => Ok(()),
            ChannelState::Closed => Err(OcppError::Transport {
                message: String::from_str("Failed to send message: channel closed"),
            }),
            ChannelState::Unopened => Err(OcppError::Transport { message: String::from_str("Not connected") }),
        }
    }

    /// The connection state.
    pub fn state(&self) -> (r: ConnectionState)
        ensures
            r == self.state_spec(),
    {
        self.state
    }

    /// Whether the client is connected.
    pub fn is_connected(&self) -> (r: bool)
        ensures
            r == (self.state_spec() == ConnectionState::Connected),
    {
        self.state == ConnectionState::Connected
    }

    /// The connection ID.
    pub fn connection_id(&self) -> (r: uuid::Uuid)
        ensures
            r == self.id_spec(),
    {
        self.connection_id
    }
}

/// The protocol error a failed close becomes.
pub fn close_failure(e: TransportError) -> (r: OcppError)
    ensures
        r matches OcppError::Transport { message } && message@ == "Failed to close connection: "@ + e.display(),
{
    OcppError::Transport { message: concat2("Failed to close connection: ", e.to_string().as_str()) }
}

} // verus!
