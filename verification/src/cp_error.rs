//! Error taxonomy of the charge point side: every failure mode, how severe it
//! is, which area it belongs to, whether it can be retried and after how long.

use vstd::prelude::*;
use crate::context::{pairs_listing, ContextMap};
use crate::ids::{is_hyphenated_uuid, new_uuid, uuid_text};
use crate::text::{concat2, concat4, concat6, u64_to_text, i64_to_text, decimal, signed_decimal};
use crate::time::Timestamp;

verus! {

/// Charge point error types.
#[derive(Debug, Clone)]
pub enum ChargePointError {
    /// Connection error
    ConnectionError(String),
    /// Transport error
    TransportError(String),
    /// Protocol violation
    ProtocolViolation(String),
    /// Message serialization/deserialization error
    SerializationError(String),
    /// Authentication/authorization failed
    AuthorizationFailed(String),
    /// Invalid operation for current state
    InvalidOperation(String),
    /// Configuration error
    ConfigurationError(String),
    /// Connector error
    ConnectorError { connector_id: u32, message: String },
    /// Transaction error
    TransactionError { transaction_id: i32, message: String },
    /// Hardware fault
    HardwareFault { fault_type: String, description: String },
    /// Timeout error
    Timeout { operation: String, duration_ms: u64 },
    /// Resource unavailable
    ResourceUnavailable { resource: String },
    /// Boot notification failed
    BootNotificationFailed { reason: String },
    /// Central system error
    CentralSystemError(String),
    /// Validation error
    ValidationError { field: String, message: String },
    /// Internal error
    InternalError(String),
    /// Not supported
    NotSupported { feature: String },
    /// Rate limit exceeded
    RateLimitExceeded { operation: String, limit: u32, window: String },
}

/// Error severity levels, from least to most severe.
#[derive(Debug, Clone, Copy, PartialEq, Eq, PartialOrd, Ord, Structural)]
pub enum ErrorSeverity {
    /// Warning - operation can continue
    Warning,
    /// Error - operation failed but system is stable
    Error,
    /// Critical - system stability may be compromised
    Critical,
}

/// Error categories.
#[derive(Debug, Clone, Copy, PartialEq, Eq, Hash, Structural)]
pub enum ErrorCategory {
    /// Network/connection related errors
    Network,
    /// Protocol/message format errors
    Protocol,
    /// Authentication/authorization errors
    Authentication,
    /// Configuration errors
    Configuration,
    /// Hardware/connector errors
    Hardware,
    /// Transaction processing errors
    Transaction,
    /// Performance/timeout errors
    Performance,
    /// Resource availability errors
    Resource,
    /// System/central system errors
    System,
    /// Logic/programming errors
    Logic,
}

impl ErrorSeverity {
    /// Position of the level in the order Warning < Error < Critical.
    pub open spec fn rank(self) -> int {
        match self {
            ErrorSeverity::Warning => 0,
            ErrorSeverity::Error => 1,
            ErrorSeverity::Critical => 2,
        }
    }

    /// The label the level is displayed with.
    pub open spec fn label(self) -> Seq<char> {
        match self {
            ErrorSeverity::Warning => "WARNING"@,
            ErrorSeverity::Error => "ERROR"@,
            ErrorSeverity::Critical => "CRITICAL"@,
        }
    }

    /// The displayed label of the level.
    pub fn to_string(&self) -> (s: String)
        ensures
            s@ == self.label(),
    {
        match self {
            ErrorSeverity::Warning => String::from_str("WARNING"),
            ErrorSeverity::Error => String::from_str("ERROR"),
            ErrorSeverity::Critical => String::from_str("CRITICAL"),
        }
    }
}

impl ErrorCategory {
    /// The label the category is displayed with.
    pub open spec fn label(self) -> Seq<char> {
        match self {
            ErrorCategory::Network => "Network"@,
            ErrorCategory::Protocol => "Protocol"@,
            ErrorCategory::Authentication => "Authentication"@,
            ErrorCategory::Configuration => "Configuration"@,
            ErrorCategory::Hardware => "Hardware"@,
            ErrorCategory::Transaction => "Transaction"@,
            ErrorCategory::Performance => "Performance"@,
            ErrorCategory::Resource => "Resource"@,
            ErrorCategory::System => "System"@,
            ErrorCategory::Logic => "Logic"@,
        }
    }

    /// The displayed label of the category.
    pub fn to_string(&self) -> (s: String)
        ensures
            s@ == self.label(),
    {
        match self {
            ErrorCategory::Network => String::from_str("Network"),
            ErrorCategory::Protocol => String::from_str("Protocol"),
            ErrorCategory::Authentication => String::from_str("Authentication"),
            ErrorCategory::Configuration => String::from_str("Configuration"),
            ErrorCategory::Hardware => String::from_str("Hardware"),
            ErrorCategory::Transaction => String::from_str("Transaction"),
            ErrorCategory::Performance => String::from_str("Performance"),
            ErrorCategory::Resource => String::from_str("Resource"),
            ErrorCategory::System => String::from_str("System"),
            ErrorCategory::Logic => String::from_str("Logic"),
        }
    }
}

impl ChargePointError {
    /// Errors that can be retried or worked around without intervention.
    pub open spec fn recoverable(self) -> bool {
        ||| self is ConnectionError
        ||| self is TransportError
        ||| self is Timeout
        ||| self is ResourceUnavailable
        ||| self is CentralSystemError
        ||| self is RateLimitExceeded
    }

    /// Severity assigned to each kind of error.
    pub open spec fn severity_of(self) -> ErrorSeverity {
        match self {
            Self::ValidationError { .. } | Self::InvalidOperation(_) => ErrorSeverity::Warning,
            Self::ConnectionError(_) | Self::TransportError(_) | Self::AuthorizationFailed(_)
            | Self::Timeout { .. } | Self::ResourceUnavailable { .. } | Self::CentralSystemError(_)
            | Self::RateLimitExceeded { .. } => ErrorSeverity::Error,
            _ => ErrorSeverity::Critical,
        }
    }

    /// Category assigned to each kind of error.
    pub open spec fn category_of(self) -> ErrorCategory {
        match self {
            Self::ConnectionError(_) | Self::TransportError(_) => ErrorCategory::Network,
            Self::ProtocolViolation(_) | Self::SerializationError(_) => ErrorCategory::Protocol,
            Self::AuthorizationFailed(_) => ErrorCategory::Authentication,
            Self::ConfigurationError(_) | Self::ValidationError { .. } => ErrorCategory::Configuration,
            Self::ConnectorError { .. } | Self::HardwareFault { .. } => ErrorCategory::Hardware,
            Self::TransactionError { .. } => ErrorCategory::Transaction,
            Self::Timeout { .. } => ErrorCategory::Performance,
            Self::ResourceUnavailable { .. } | Self::RateLimitExceeded { .. } => ErrorCategory::Resource,
            Self::BootNotificationFailed { .. } | Self::CentralSystemError(_) => ErrorCategory::System,
            Self::InvalidOperation(_) | Self::InternalError(_) | Self::NotSupported { .. } => ErrorCategory::Logic,
        }
    }

    /// Suggested retry delay in milliseconds, if the error is worth retrying.
    pub open spec fn retry_delay_of(self) -> Option<u64> {
        match self {
            Self::ConnectionError(_) => Some(5000),
            Self::TransportError(_) => Some(3000),
            Self::Timeout { .. } => Some(1000),
            Self::ResourceUnavailable { .. } => Some(2000),
            Self::CentralSystemError(_) => Some(10000),
            Self::RateLimitExceeded { .. } => Some(60000),
            _ => None,
        }
    }

    /// The text the error is displayed with.
    pub open spec fn display(self) -> Seq<char> {
        match self {
            Self::ConnectionError(m) => "Connection error: "@ + m@,
            Self::TransportError(m) => "Transport error: "@ + m@,
            Self::ProtocolViolation(m) => "Protocol violation: "@ + m@,
            Self::SerializationError(m) => "Serialization error: "@ + m@,
            Self::AuthorizationFailed(m) => "Authorization failed: "@ + m@,
            Self::InvalidOperation(m) => "Invalid operation: "@ + m@,
            Self::ConfigurationError(m) => "Configuration error: "@ + m@,
            Self::ConnectorError { connector_id, message } =>
                "Connector error on connector "@ + decimal(connector_id as nat) + ": "@ + message@,
            Self::TransactionError { transaction_id, message } =>
                "Transaction error (ID: "@ + signed_decimal(transaction_id as int) + "): "@ + message@,
            Self::HardwareFault { fault_type, description } =>
                "Hardware fault: "@ + fault_type@ + " - "@ + description@,
            Self::Timeout { operation, duration_ms } =>
                "Timeout: "@ + operation@ + " after "@ + decimal(duration_ms as nat) + "ms"@,
            Self::ResourceUnavailable { resource } => "Resource unavailable: "@ + resource@,
            Self::BootNotificationFailed { reason } => "Boot notification failed: "@ + reason@,
            Self::CentralSystemError(m) => "Central system error: "@ + m@,
            Self::ValidationError { field, message } =>
                "Validation error: "@ + field@ + " - "@ + message@,
            Self::InternalError(m) => "Internal error: "@ + m@,
            Self::NotSupported { feature } => "Feature not supported: "@ + feature@,
            Self::RateLimitExceeded { operation, limit, window } =>
                "Rate limit exceeded for "@ + operation@ + ": "@ + decimal(limit as nat) + " per "@ + window@,
        }
    }

    /// Create a connection error.
    pub fn connection(message: &str) -> (r: Self)
        ensures
            r matches Self::ConnectionError(m) && m@ == message@,
    {
        Self::ConnectionError(String::from_str(message))
    }

    /// Create a transport error.
    pub fn transport(message: &str) -> (r: Self)
        ensures
            r matches Self::TransportError(m) && m@ == message@,
    {
        Self::TransportError(String::from_str(message))
    }

    /// Create a protocol violation error.
    pub fn protocol_violation(message: &str) -> (r: Self)
        ensures
            r matches Self::ProtocolViolation(m) && m@ == message@,
    {
        Self::ProtocolViolation(String::from_str(message))
    }

    /// Create a serialization error.
    pub fn serialization(message: &str) -> (r: Self)
        ensures
            r matches Self::SerializationError(m) && m@ == message@,
    {
        Self::SerializationError(String::from_str(message))
    }

    /// Create an authorization failed error.
    pub fn authorization_failed(message: &str) -> (r: Self)
        ensures
            r matches Self::AuthorizationFailed(m) && m@ == message@,
    {
        Self::AuthorizationFailed(String::from_str(message))
    }

    /// Create an invalid operation error.
    pub fn invalid_operation(message: &str) -> (r: Self)
        ensures
            r matches Self::InvalidOperation(m) && m@ == message@,
    {
        Self::InvalidOperation(String::from_str(message))
    }

    /// Create a configuration error.
    pub fn configuration(message: &str) -> (r: Self)
        ensures
            r matches Self::ConfigurationError(m) && m@ == message@,
    {
        Self::ConfigurationError(String::from_str(message))
    }

    /// Create a connector error.
    pub fn connector(connector_id: u32, message: &str) -> (r: Self)
        ensures
            r matches Self::ConnectorError { connector_id: c, message: m }
                && c == connector_id && m@ == message@,
    {
        Self::ConnectorError { connector_id, message: String::from_str(message) }
    }

    /// Create a transaction error.
    pub fn transaction(transaction_id: i32, message: &str) -> (r: Self)
        ensures
            r matches Self::TransactionError { transaction_id: t, message: m }
                && t == transaction_id && m@ == message@,
    {
        Self::TransactionError { transaction_id, message: String::from_str(message) }
    }

    /// Create a hardware fault error.
    pub fn hardware_fault(fault_type: &str, description: &str) -> (r: Self)
        ensures
            r matches Self::HardwareFault { fault_type: f, description: d }
                && f@ == fault_type@ && d@ == description@,
    {
        Self::HardwareFault {
            fault_type: String::from_str(fault_type),
            description: String::from_str(description),
        }
    }

    /// Create a timeout error.
    pub fn timeout(operation: &str, duration_ms: u64) -> (r: Self)
        ensures
            r matches Self::Timeout { operation: o, duration_ms: d }
                && o@ == operation@ && d == duration_ms,
    {
        Self::Timeout { operation: String::from_str(operation), duration_ms }
    }

    /// Create a resource unavailable error.
    pub fn resource_unavailable(resource: &str) -> (r: Self)
        ensures
            r matches Self::ResourceUnavailable { resource: x } && x@ == resource@,
    {
        Self::ResourceUnavailable { resource: String::from_str(resource) }
    }

    /// Create a boot notification failed error.
    pub fn boot_notification_failed(reason: &str) -> (r: Self)
        ensures
            r matches Self::BootNotificationFailed { reason: x } && x@ == reason@,
    {
        Self::BootNotificationFailed { reason: String::from_str(reason) }
    }

    /// Create a central system error.
    pub fn central_system(message: &str) -> (r: Self)
        ensures
            r matches Self::CentralSystemError(m) && m@ == message@,
    {
        Self::CentralSystemError(String::from_str(message))
    }

    /// Create a validation error.
    pub fn validation(field: &str, message: &str) -> (r: Self)
        ensures
            r matches Self::ValidationError { field: f, message: m }
                && f@ == field@ && m@ == message@,
    {
        Self::ValidationError { field: String::from_str(field), message: String::from_str(message) }
    }

    /// Create an internal error.
    pub fn internal(message: &str) -> (r: Self)
        ensures
            r matches Self::InternalError(m) && m@ == message@,
    {
        Self::InternalError(String::from_str(message))
    }

    /// Create a not supported error.
    pub fn not_supported(feature: &str) -> (r: Self)
        ensures
            r matches Self::NotSupported { feature: f } && f@ == feature@,
    {
        Self::NotSupported { feature: String::from_str(feature) }
    }

    /// Create a rate limit exceeded error.
    pub fn rate_limit_exceeded(operation: &str, limit: u32, window: &str) -> (r: Self)
        ensures
            r matches Self::RateLimitExceeded { operation: o, limit: l, window: w }
                && o@ == operation@ && l == limit && w@ == window@,
    {
        Self::RateLimitExceeded {
            operation: String::from_str(operation),
            limit,
            window: String::from_str(window),
        }
    }

    /// Check if the error is recoverable.
    pub fn is_recoverable(&self) -> (r: bool)
        ensures
            r == self.recoverable(),
    {
        match self {
            Self::ConnectionError(_)
            | Self::TransportError(_)
            | Self::Timeout { .. }
            | Self::ResourceUnavailable { .. }
            | Self::CentralSystemError(_)
            | Self::RateLimitExceeded { .. } => true,
            Self::ProtocolViolation(_)
            | Self::SerializationError(_)
            | Self::AuthorizationFailed(_)
            | Self::ConfigurationError(_)
            | Self::HardwareFault { .. }
            | Self::ValidationError { .. }
            | Self::InternalError(_)
            | Self::NotSupported { .. }
            | Self::InvalidOperation(_)
            | Self::ConnectorError { .. }
            | Self::TransactionError { .. }
            | Self::BootNotificationFailed { .. } => false,
        }
    }

    /// Get the error severity level.
    pub fn severity(&self) -> (r: ErrorSeverity)
        ensures
            r == self.severity_of(),
    {
        match self {
            Self::ValidationError { .. } | Self::InvalidOperation(_) => ErrorSeverity::Warning,
            Self::ConnectionError(_)
            | Self::TransportError(_)
            | Self::AuthorizationFailed(_)
            | Self::Timeout { .. }
            | Self::ResourceUnavailable { .. }
            | Self::CentralSystemError(_)
            | Self::RateLimitExceeded { .. } => ErrorSeverity::Error,
            Self::ProtocolViolation(_)
            | Self::SerializationError(_)
            | Self::ConfigurationError(_)
            | Self::HardwareFault { .. }
            | Self::ConnectorError { .. }
            | Self::TransactionError { .. }
            | Self::BootNotificationFailed { .. }
            | Self::InternalError(_)
            | Self::NotSupported { .. } => ErrorSeverity::Critical,
        }
    }

    /// Get the error category.
    pub fn category(&self) -> (r: ErrorCategory)
        ensures
            r == self.category_of(),
    {
        match self {
            Self::ConnectionError(_) | Self::TransportError(_) => ErrorCategory::Network,
            Self::ProtocolViolation(_) | Self::SerializationError(_) => ErrorCategory::Protocol,
            Self::AuthorizationFailed(_) => ErrorCategory::Authentication,
            Self::ConfigurationError(_) | Self::ValidationError { .. } => ErrorCategory::Configuration,
            Self::ConnectorError { .. } | Self::HardwareFault { .. } => ErrorCategory::Hardware,
            Self::TransactionError { .. } => ErrorCategory::Transaction,
            Self::Timeout { .. } => ErrorCategory::Performance,
            Self::ResourceUnavailable { .. } | Self::RateLimitExceeded { .. } => ErrorCategory::Resource,
            Self::BootNotificationFailed { .. } | Self::CentralSystemError(_) => ErrorCategory::System,
            Self::InvalidOperation(_) | Self::InternalError(_) | Self::NotSupported { .. } => {
                ErrorCategory::Logic
            },
        }
    }

    /// Get the suggested retry delay in milliseconds.
    pub fn suggested_retry_delay(&self) -> (r: Option<u64>)
        ensures
            r == self.retry_delay_of(),
    {
        match self {
            Self::ConnectionError(_) => Some(5000),
            Self::TransportError(_) => Some(3000),
            Self::Timeout { .. } => Some(1000),
            Self::ResourceUnavailable { .. } => Some(2000),
            Self::CentralSystemError(_) => Some(10000),
            Self::RateLimitExceeded { .. } => Some(60000),
            _ => None,
        }
    }

    /// The text the error is displayed with.
    pub fn to_string(&self) -> (s: String)
        ensures
            s@ == self.display(),
    {
        match self {
            Self::ConnectionError(m) => concat2("Connection error: ", m.as_str()),
            Self::TransportError(m) => concat2("Transport error: ", m.as_str()),
            Self::ProtocolViolation(m) => concat2("Protocol violation: ", m.as_str()),
            Self::SerializationError(m) => concat2("Serialization error: ", m.as_str()),
            Self::AuthorizationFailed(m) => concat2("Authorization failed: ", m.as_str()),
            Self::InvalidOperation(m) => concat2("Invalid operation: ", m.as_str()),
            Self::ConfigurationError(m) => concat2("Configuration error: ", m.as_str()),
            Self::ConnectorError { connector_id, message } => {
                let id = u64_to_text(*connector_id as u64);
                concat4("Connector error on connector ", id.as_str(), ": ", message.as_str())
            },
            Self::TransactionError { transaction_id, message } => {
                let id = i64_to_text(*transaction_id as i64);
                concat4("Transaction error (ID: ", id.as_str(), "): ", message.as_str())
            },
            Self::HardwareFault { fault_type, description } => {
                concat4("Hardware fault: ", fault_type.as_str(), " - ", description.as_str())
            },
            Self::Timeout { operation, duration_ms } => {
                let d = u64_to_text(*duration_ms);
                let mut s = concat4("Timeout: ", operation.as_str(), " after ", d.as_str());
                s.append("ms");
                s
            },
            Self::ResourceUnavailable { resource } => concat2("Resource unavailable: ", resource.as_str()),
            Self::BootNotificationFailed { reason } => concat2("Boot notification failed: ", reason.as_str()),
            Self::CentralSystemError(m) => concat2("Central system error: ", m.as_str()),
            Self::ValidationError { field, message } => {
                concat4("Validation error: ", field.as_str(), " - ", message.as_str())
            },
            Self::InternalError(m) => concat2("Internal error: ", m.as_str()),
            Self::NotSupported { feature } => concat2("Feature not supported: ", feature.as_str()),
            Self::RateLimitExceeded { operation, limit, window } => {
                let l = u64_to_text(*limit as u64);
                concat6("Rate limit exceeded for ", operation.as_str(), ": ", l.as_str(), " per ", window.as_str())
            },
        }
    }
}

/// An error is worth retrying exactly when it comes with a suggested retry delay.
pub proof fn lemma_recoverable_iff_retry_delay(e: ChargePointError)
    ensures
        e.recoverable() <==> e.retry_delay_of() is Some,
{
}

/// Critical errors are never recoverable, and recoverable errors are always of
/// severity `Error`.
pub proof fn lemma_recoverable_errors_are_not_critical(e: ChargePointError)
    ensures
        e.severity_of() == ErrorSeverity::Critical ==> !e.recoverable(),
        e.recoverable() ==> e.severity_of() == ErrorSeverity::Error,
{
}

/// Severity levels are totally ordered: Warning below Error below Critical.
pub proof fn lemma_severity_order()
    ensures
        ErrorSeverity::Warning.rank() < ErrorSeverity::Error.rank(),
        ErrorSeverity::Error.rank() < ErrorSeverity::Critical.rank(),
{
}

/// Every error is displayed with a non-empty text.
pub proof fn lemma_display_non_empty(e: ChargePointError)
    ensures
        e.display().len() > 0,
{
    reveal_strlit("Connection error: ");
    reveal_strlit("Transport error: ");
    reveal_strlit("Protocol violation: ");
    reveal_strlit("Serialization error: ");
    reveal_strlit("Authorization failed: ");
    reveal_strlit("Invalid operation: ");
    reveal_strlit("Configuration error: ");
    reveal_strlit("Connector error on connector ");
    reveal_strlit("Transaction error (ID: ");
    reveal_strlit("Hardware fault: ");
    reveal_strlit("Timeout: ");
    reveal_strlit("Resource unavailable: ");
    reveal_strlit("Boot notification failed: ");
    reveal_strlit("Central system error: ");
    reveal_strlit("Validation error: ");
    reveal_strlit("Internal error: ");
    reveal_strlit("Feature not supported: ");
    reveal_strlit("Rate limit exceeded for ");
}

/// Error context for additional debugging information.
#[derive(Debug, Clone)]
pub struct ErrorContext {
    /// Error source location
    pub source: Option<String>,
    /// Additional context data
    pub context: ContextMap,
    /// Timestamp when error occurred
    pub timestamp: Timestamp,
}

impl ErrorContext {
    /// A context without source or data, stamped now.
    pub fn new() -> (r: Self)
        ensures
            r.source is None,
            r.context@ =~= Map::empty(),
            r.context.pairs().len() == 0,
    {
        ErrorContext { source: None, context: ContextMap::new(), timestamp: Timestamp::now() }
    }

    /// A context with a source location and no data, stamped now.
    pub fn with_source(source: &str) -> (r: Self)
        ensures
            r.source matches Some(s) && s@ == source@,
            r.context@ =~= Map::empty(),
            r.context.pairs().len() == 0,
    {
        ErrorContext { source: Some(String::from_str(source)), context: ContextMap::new(), timestamp: Timestamp::now() }
    }

    /// The context with one more datum; a key already present takes the new value.
    pub fn add_context(self, key: &str, value: &str) -> (r: Self)
        ensures
            r.source == self.source,
            r.timestamp == self.timestamp,
            r.context@ == self.context@.insert(key@, value@),
    {
        let mut c = self;
        c.context.insert(String::from_str(key), String::from_str(value));
        c
    }

    /// A datum of the context.
    pub fn get_context(&self, key: &str) -> (r: Option<&String>)
        ensures
            match r {
                Some(v) => self.context@.contains_key(key@) && v@ == self.context@[key@],
                None => !self.context@.contains_key(key@),
            },
    {
        self.context.get(key)
    }
}

impl Default for ErrorContext {
    fn default() -> (r: Self)
        ensures
            r.source is None,
            r.context@ =~= Map::empty(),
    {
        Self::new()
    }
}

/// The part of an extended error's text after its ID: the error, then its
/// source and its context data when there are any.
pub open spec fn extended_tail(error: ChargePointError, context: ErrorContext) -> Seq<char> {
    "] "@ + error.display()
        + match context.source {
            Some(s) => " (source: "@ + s@ + ")"@,
            None => seq![],
        }
        + if context.context.pairs().len() > 0 { " context: "@ + pairs_listing(context.context.pairs()) } else { seq![] }
}

/// Extended error with context.
#[derive(Debug, Clone)]
pub struct ExtendedError {
    /// Base error
    pub error: ChargePointError,
    /// Error context
    pub context: ErrorContext,
    /// Error ID for tracking
    pub id: uuid::Uuid,
}

impl ExtendedError {
    /// The error with an empty context and a fresh random ID.
    pub fn new(error: ChargePointError) -> (r: Self)
        ensures
            r.error == error,
            r.context.source is None,
            r.context.context@ =~= Map::empty(),
    {
        ExtendedError { error, context: ErrorContext::new(), id: new_uuid() }
    }

    /// The error with the given context and a fresh random ID.
    pub fn with_context(error: ChargePointError, context: ErrorContext) -> (r: Self)
        ensures
            r.error == error,
            r.context == context,
    {
        ExtendedError { error, context, id: new_uuid() }
    }

    /// The error with one more context datum.
    pub fn add_context(self, key: &str, value: &str) -> (r: Self)
        ensures
            r.error == self.error,
            r.id == self.id,
            r.context.source == self.context.source,
            r.context.context@ == self.context.context@.insert(key@, value@),
    {
        let ExtendedError { error, context, id } = self;
        ExtendedError { error, context: context.add_context(key, value), id }
    }

    /// The text the error is displayed with: its ID in brackets (hyphenated),
    /// the error, then its source and context data.
    pub fn to_string(&self) -> (s: String)
        ensures
            s@.len() >= 37,
            s@[0] == '[',
            is_hyphenated_uuid(s@.subrange(1, 37)),
            s@.subrange(37, s@.len() as int) == extended_tail(self.error, self.context),
    {
        let id = uuid_text(&self.id);
        let mut s = String::from_str("[");
        s.append(id.as_str());
        let ghost head = s@;
        s.append("] ");
        let e = self.error.to_string();
        s.append(e.as_str());
        match &self.context.source {
            Some(src) => {
                s.append(" (source: ");
                s.append(src.as_str());
                s.append(")");
            },
            None => {},
        }
        if !self.context.context.is_empty() {
            let l = self.context.context.listing();
            s.append(" context: ");
            s.append(l.as_str());
        }
        proof {
            reveal_strlit("[");
            assert(head.len() == 37);
            assert(s@.subrange(1, 37) =~= id@);
            assert(s@.subrange(37, s@.len() as int) =~= extended_tail(self.error, self.context));
        }
        s
    }
}

} // verus!
