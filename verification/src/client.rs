//! The CLI's OCPP WebSocket client: its configuration, connection state
//! machine and events. The socket work itself is done around this core; the
//! core decides the state after each step.

pub mod utils;

use vstd::prelude::*;
use crate::json::JsonValue;

verus! {

/// `Duration::from_secs(secs)`, as a value.
pub uninterp spec fn duration_of_secs(secs: u64) -> core::time::Duration;

/// `core::time::Duration::from_secs`: the duration of `secs` whole seconds;
/// the same number always gives the same duration.
pub assume_specification[ core::time::Duration::from_secs ](secs: u64) -> (r: core::time::Duration)
    ensures
        r == duration_of_secs(secs),
;

/// `Clone` of `core::time::Duration`, a `Copy` type: the same duration.
pub assume_specification[ <core::time::Duration as Clone>::clone ](d: &core::time::Duration) -> (r: core::time::Duration)
    ensures
        r == *d,
;

/// Client configuration.
#[derive(Debug, Clone, Copy)]
pub struct ClientConfig {
    /// Connection timeout
    pub connect_timeout: core::time::Duration,
    /// Ping interval
    pub ping_interval: core::time::Duration,
    /// Maximum reconnection attempts
    pub max_reconnect_attempts: u32,
    /// Reconnection delay
    pub reconnect_delay: core::time::Duration,
    /// Message buffer size
    pub message_buffer_size: usize,
}

impl ClientConfig {
    /// The configuration used when none is given.
    pub fn default() -> (r: Self)
        ensures
            r.connect_timeout == duration_of_secs(30),
            r.ping_interval == duration_of_secs(30),
            r.max_reconnect_attempts == 5,
            r.reconnect_delay == duration_of_secs(5),
            r.message_buffer_size == 1000,
    {
        ClientConfig {
            connect_timeout: core::time::Duration::from_secs(30),
            ping_interval: core::time::Duration::from_secs(30),
            max_reconnect_attempts: 5,
            reconnect_delay: core::time::Duration::from_secs(5),
            message_buffer_size: 1000,
        }
    }
}

/// Connection state.
#[derive(Debug, Clone, Copy, PartialEq, Eq, Structural)]
pub enum ConnectionState {
    Disconnected,
    Connecting,
    Connected,
    Reconnecting,
    Failed,
}

/// Client events.
#[derive(Debug, Clone)]
pub enum ClientEvent {
    Connected,
    Disconnected { reason: String },
    MessageReceived { message: String },
    MessageSent { message: String },
    Error { error: String },
    Pong,
}

/// OCPP message as the CLI handles it.
#[derive(Debug, Clone)]
pub struct OcppMessage {
    /// Message type (2=Call, 3=CallResult, 4=CallError)
    pub message_type: u8,
    /// Unique message identifier
    pub message_id: String,
    /// Action name or error code
    pub action: String,
    /// Message payload
    pub payload: JsonValue,
}

/// How one attempt to open the socket ended.
#[derive(Debug, Clone)]
pub enum ConnectOutcome {
    /// The handshake completed.
    Established,
    /// The handshake failed with the given message.
    Refused(String),
    /// The handshake did not complete within the connect timeout.
    TimedOut,
}

/// Why the client could not connect.
#[derive(Debug, Clone)]
pub enum ConnectError {
    /// The configured URL is not a valid URL; the message is the parser's.
    InvalidUrl(String),
    /// The connection attempt failed.
    Failed(String),
    /// The connection attempt timed out.
    Timeout,
    /// Every reconnection attempt failed.
    AttemptsExhausted,
    /// No connection is open to send on.
    NotConnected,
}

impl ConnectError {
    /// The text the error is displayed with.
    pub open spec fn display(self) -> Seq<char> {
        match self {
            ConnectError::InvalidUrl(m) => m@,
            ConnectError::Failed(m) => "Connection failed: "@ + m@,
            ConnectError::Timeout => "Connection timeout"@,
            ConnectError::AttemptsExhausted => "Max reconnection attempts exceeded"@,
            ConnectError::NotConnected => "Client not connected"@,
        }
    }

    /// The text the error is displayed with.
    pub fn to_string(&self) -> (r: String)
        ensures
            r@ == self.display(),
    {
        match self {
            ConnectError::InvalidUrl(m) => m.clone(),
            ConnectError::Failed(m) => crate::text::concat2("Connection failed: ", m.as_str()),
            ConnectError::Timeout => String::from_str("Connection timeout"),
            ConnectError::AttemptsExhausted => String::from_str("Max reconnection attempts exceeded"),
            ConnectError::NotConnected => String::from_str("Client not connected"),
        }
    }
}

/// What the reconnection loop does next.
#[derive(Debug, Clone, Copy, PartialEq, Eq, Structural)]
pub enum ReconnectStep {
    /// Make connection attempt number `n` (counting from 1) now.
    Attempt(u32),
    /// Wait the reconnect delay, then make attempt number `n`.
    WaitThenAttempt(u32),
    /// Stop: connected.
    Connected,
    /// Stop: every attempt failed.
    GiveUp,
}

/// What `url::Url::parse` reads from `text`: the scheme, the host (if any)
/// and the explicitly given port (if any, and not the scheme's default), or
/// the parser's error message.
pub uninterp spec fn url_parts(text: Seq<char>) -> Result<(Seq<char>, Option<Seq<char>>, Option<u16>), Seq<char>>;

/// `url::Url::parse`, then `Url::scheme`, `Url::host_str` and `Url::port`;
/// on failure the `Display` text of the parse error. The result is named
/// `url_parts`.
#[verifier::external_body]
pub(crate) fn parse_url(text: &str) -> (r: Result<(String, Option<String>, Option<u16>), String>)
    ensures
        match r {
            Ok((scheme, host, port)) => url_parts(text@) == Ok::<(Seq<char>, Option<Seq<char>>, Option<u16>), Seq<char>>(
                (scheme@, crate::json::opt_text(host), port),
            ),
            Err(e) => url_parts(text@) == Err::<(Seq<char>, Option<Seq<char>>, Option<u16>), Seq<char>>(e@),
        },
{
    match url::Url::parse(text) {
        Ok(u) => Ok((u.scheme().to_string(), u.host_str().map(|h| h.to_string()), u.port())),
        Err(e) => Err(e.to_string()),
    }
}

/// WebSocket client for OCPP communication: its URL, configuration and
/// connection state.
pub struct OcppWebSocketClient {
    url: String,
    config: ClientConfig,
    state: ConnectionState,
    channel_open: bool,
}

impl OcppWebSocketClient {
    /// The URL the client connects to.
    pub closed spec fn url_of(&self) -> Seq<char> {
        self.url@
    }

    /// The configuration of the client.
    pub closed spec fn config_of(&self) -> ClientConfig {
        self.config
    }

    /// The current connection state.
    pub closed spec fn state_of(&self) -> ConnectionState {
        self.state
    }

    /// Whether a channel to the socket is open: from a completed handshake
    /// until the next disconnect.
    pub closed spec fn channel_open_of(&self) -> bool {
        self.channel_open
    }

    /// Create a new client; it starts disconnected.
    pub fn new(url: String, config: ClientConfig) -> (r: Self)
        ensures
            r.url_of() == url@,
            r.config_of() == config,
            r.state_of() == ConnectionState::Disconnected,
            !r.channel_open_of(),
    {
        OcppWebSocketClient { url, config, state: ConnectionState::Disconnected, channel_open: false }
    }

    /// Whether a message can be sent now: an open channel is needed.
    pub fn send_ready(&self) -> (r: Result<(), ConnectError>)
        ensures
            if self.channel_open_of() { r is Ok } else { r matches Err(ConnectError::NotConnected) },
    {
        if self.channel_open {
            Ok(())
        } else {
            Err(ConnectError::NotConnected)
        }
    }

    /// The URL the client connects to.
    pub fn url(&self) -> (r: &str)
        ensures
            r@ == self.url_of(),
    {
        self.url.as_str()
    }

    /// The configuration of the client.
    pub fn config(&self) -> (r: &ClientConfig)
        ensures
            *r == self.config_of(),
    {
        &self.config
    }

    /// Get the connection state.
    pub fn state(&self) -> (r: ConnectionState)
        ensures
            r == self.state_of(),
    {
        self.state
    }

    /// Check if connected.
    pub fn is_connected(&self) -> (r: bool)
        ensures
            r == (self.state_of() == ConnectionState::Connected),
    {
        self.state == ConnectionState::Connected
    }

    /// First step of connecting: the client becomes `Connecting` and the URL
    /// is checked. An invalid URL ends the attempt with the parser's error,
    /// leaving the state `Connecting`.
    pub fn begin_connect(&mut self) -> (r: Result<(), ConnectError>)
        ensures
            final(self).state_of() == ConnectionState::Connecting,
            final(self).url_of() == old(self).url_of(),
            final(self).config_of() == old(self).config_of(),
            final(self).channel_open_of() == old(self).channel_open_of(),
            match url_parts(old(self).url_of()) {
                Ok(_) => r is Ok,
                Err(m) => r matches Err(ConnectError::InvalidUrl(e)) && e@ == m,
            },
    {
        self.state = ConnectionState::Connecting;
        match parse_url(self.url.as_str()) {
            Ok(_) => Ok(()),
            Err(m) => Err(ConnectError::InvalidUrl(m)),
        }
    }

    /// Last step of connecting: the state follows the outcome of the
    /// handshake, `Connected` on success and `Failed` otherwise.
    pub fn finish_connect(&mut self, outcome: ConnectOutcome) -> (r: Result<(), ConnectError>)
        ensures
            final(self).url_of() == old(self).url_of(),
            final(self).config_of() == old(self).config_of(),
            match outcome {
                ConnectOutcome::Established => r is Ok && final(self).state_of() == ConnectionState::Connected
                    && final(self).channel_open_of(),
                ConnectOutcome::Refused(m) => (r matches Err(ConnectError::Failed(e)) && e == m)
                    && final(self).state_of() == ConnectionState::Failed
                    && final(self).channel_open_of() == old(self).channel_open_of(),
                ConnectOutcome::TimedOut => (r matches Err(ConnectError::Timeout))
                    && final(self).state_of() == ConnectionState::Failed
                    && final(self).channel_open_of() == old(self).channel_open_of(),
            },
    {
        match outcome {
            ConnectOutcome::Established => {
                self.state = ConnectionState::Connected;
                self.channel_open = true;
                Ok(())
            },
            ConnectOutcome::Refused(m) => {
                self.state = ConnectionState::Failed;
                Err(ConnectError::Failed(m))
            },
            ConnectOutcome::TimedOut => {
                self.state = ConnectionState::Failed;
                Err(ConnectError::Timeout)
            },
        }
    }

    /// Disconnect: the client becomes `Disconnected`.
    pub fn disconnect(&mut self) -> (r: Result<(), ConnectError>)
        ensures
            r is Ok,
            final(self).state_of() == ConnectionState::Disconnected,
            !final(self).channel_open_of(),
            final(self).url_of() == old(self).url_of(),
            final(self).config_of() == old(self).config_of(),
    {
        self.state = ConnectionState::Disconnected;
        self.channel_open = false;
        Ok(())
    }

    /// Start reconnecting: the client becomes `Reconnecting` and makes its
    /// first attempt, unless no attempt is allowed, in which case it fails.
    pub fn begin_reconnect(&mut self) -> (r: ReconnectStep)
        ensures
            final(self).channel_open_of() == old(self).channel_open_of(),
            final(self).url_of() == old(self).url_of(),
            final(self).config_of() == old(self).config_of(),
            if old(self).config_of().max_reconnect_attempts == 0 {
                r == ReconnectStep::GiveUp && final(self).state_of() == ConnectionState::Failed
            } else {
                r == ReconnectStep::Attempt(1) && final(self).state_of() == ConnectionState::Reconnecting
            },
    {
        if self.config.max_reconnect_attempts == 0 {
            self.state = ConnectionState::Failed;
            ReconnectStep::GiveUp
        } else {
            self.state = ConnectionState::Reconnecting;
            ReconnectStep::Attempt(1)
        }
    }

    /// After attempt number `attempt` (its connect steps already applied):
    /// stop when it connected; otherwise wait and try the next attempt while
    /// attempts remain, and give up, failed, after the last one.
    pub fn after_reconnect_attempt(&mut self, attempt: u32, connected: bool) -> (r: ReconnectStep)
        requires
            1 <= attempt <= old(self).config_of().max_reconnect_attempts,
        ensures
            final(self).channel_open_of() == old(self).channel_open_of(),
            final(self).url_of() == old(self).url_of(),
            final(self).config_of() == old(self).config_of(),
            if connected {
                r == ReconnectStep::Connected && final(self).state_of() == old(self).state_of()
            } else if attempt < old(self).config_of().max_reconnect_attempts {
                r == ReconnectStep::WaitThenAttempt((attempt + 1) as u32)
                    && final(self).state_of() == old(self).state_of()
            } else {
                r == ReconnectStep::GiveUp && final(self).state_of() == ConnectionState::Failed
            },
    {
        if connected {
            ReconnectStep::Connected
        } else if attempt < self.config.max_reconnect_attempts {
            ReconnectStep::WaitThenAttempt(attempt + 1)
        } else {
            self.state = ConnectionState::Failed;
            ReconnectStep::GiveUp
        }
    }
}

/// A frame read from the socket, as plain values.
#[derive(Debug, Clone)]
pub enum IncomingFrame {
    Text(String),
    Binary(Vec<u8>),
    Ping,
    Pong,
    /// A close frame, with its reason if it carried one
    Close(Option<String>),
    /// A raw frame, handled by the WebSocket library
    Frame,
    /// The read failed, with the error's text
    ReadError(String),
}

/// `String::from_utf8`: the text the bytes encode, when they are valid UTF-8.
#[verifier::external_body]
fn utf8_text(bytes: Vec<u8>) -> (r: Option<String>)
    ensures
        match r {
            Some(s) => vstd::utf8::valid_utf8(bytes@) && s@ == vstd::utf8::decode_utf8(bytes@),
            None => !vstd::utf8::valid_utf8(bytes@),
        },
{
    String::from_utf8(bytes).ok()
}

/// The event a read frame raises, and whether reading stops after it: text
/// (and binary that is valid UTF-8) is a received message, a pong is
/// reported, a close or a read error is reported and ends reading, and
/// everything else is passed over.
pub fn frame_event(frame: IncomingFrame) -> (r: (Option<ClientEvent>, bool))
    ensures
        match frame {
            IncomingFrame::Text(t) => r.0 == Some(ClientEvent::MessageReceived { message: t }) && !r.1,
            IncomingFrame::Binary(b) => !r.1 && if vstd::utf8::valid_utf8(b@) {
                r.0 matches Some(ClientEvent::MessageReceived { message }) && message@ == vstd::utf8::decode_utf8(b@)
            } else {
                r.0 is None
            },
            IncomingFrame::Ping => r.0 is None && !r.1,
            IncomingFrame::Pong => r.0 == Some(ClientEvent::Pong) && !r.1,
            IncomingFrame::Close(reason) => r.1 && (r.0 matches Some(ClientEvent::Disconnected { reason: x })
                && x@ == match reason {
                    Some(s) => s@,
                    None => "Unknown"@,
                }),
            IncomingFrame::Frame => r.0 is None && !r.1,
            IncomingFrame::ReadError(e) => r.1 && (r.0 matches Some(ClientEvent::Error { error })
                && error@ == "Read error: "@ + e@),
        },
{
    match frame {
        IncomingFrame::Text(t) => (Some(ClientEvent::MessageReceived { message: t }), false),
        IncomingFrame::Binary(b) => match utf8_text(b) {
            Some(t) => (Some(ClientEvent::MessageReceived { message: t }), false),
            None => (None, false),
        },
        IncomingFrame::Ping => (None, false),
        IncomingFrame::Pong => (Some(ClientEvent::Pong), false),
        IncomingFrame::Close(reason) => {
            let text = match reason {
                Some(s) => s,
                None => String::from_str("Unknown"),
            };
            (Some(ClientEvent::Disconnected { reason: text }), true)
        },
        IncomingFrame::Frame => (None, false),
        IncomingFrame::ReadError(e) => {
            (Some(ClientEvent::Error { error: crate::text::concat2("Read error: ", e.as_str()) }), true)
        },
    }
}

/// The event a send raises: the message was sent, or the send failed with
/// the error's text (and sending stops).
pub fn send_event(message: String, failure: Option<String>) -> (r: (ClientEvent, bool))
    ensures
        match failure {
            None => r.0 == ClientEvent::MessageSent { message } && !r.1,
            Some(e) => r.1 && (r.0 matches ClientEvent::Error { error } && error@ == "Send error: "@ + e@),
        },
{
    match failure {
        None => (ClientEvent::MessageSent { message }, false),
        Some(e) => (ClientEvent::Error { error: crate::text::concat2("Send error: ", e.as_str()) }, true),
    }
}

/// The reconnection loop never asks for more attempts than the configuration
/// allows: a step that asks for attempt `n` has `1 <= n <= max`.
pub proof fn lemma_reconnect_attempts_bounded(max: u32, attempt: u32, connected: bool)
    requires
        1 <= attempt <= max,
    ensures
        !connected && attempt < max ==> 1 <= attempt + 1 <= max,
{
}

} // verus!
