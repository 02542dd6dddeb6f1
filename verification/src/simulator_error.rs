//! Error taxonomy of the charge point simulator: failure modes of simulation
//! scenarios, fault injection and the simulator's API, with their severity,
//! category and retry advice.

use vstd::prelude::*;
use crate::context::ContextMap;
use crate::ids::{is_hyphenated_uuid, new_uuid, uuid_text};
use crate::text::{concat2, concat4, concat6, u64_to_text, decimal};
use crate::time::Timestamp;

verus! {

/// Simulator error types.
#[derive(Debug, Clone)]
pub enum SimulatorError {
    /// Configuration error
    ConfigurationError(String),
    /// Charge point error
    ChargePointError(String),
    /// Connection error
    ConnectionError(String),
    /// API server error
    ApiServerError(String),
    /// Scenario execution error
    ScenarioExecutionError { scenario: String, message: String },
    /// Scenario validation error
    ScenarioValidationError { scenario: String, message: String },
    /// Fault injection error
    FaultInjectionError { connector_id: u32, message: String },
    /// Meter simulation error
    MeterSimulationError(String),
    /// Event handling error
    EventHandlingError(String),
    /// WebSocket error
    WebSocketError(String),
    /// Serialization/deserialization error
    SerializationError(String),
    /// I/O error
    IoError(String),
    /// Timeout error
    TimeoutError { operation: String, duration_ms: u64 },
    /// Invalid state error
    InvalidStateError { operation: String, current_state: String },
    /// Resource not found error
    ResourceNotFoundError { resource_type: String, resource_id: String },
    /// Validation error
    ValidationError { field: String, message: String },
    /// External service error
    ExternalServiceError { service: String, message: String },
    /// Authentication error
    AuthenticationError(String),
    /// Authorization error
    AuthorizationError(String),
    /// Rate limit error
    RateLimitError { operation: String, limit: u32, window: String },
    /// Concurrent operation error
    ConcurrentOperationError(String),
    /// Internal error
    InternalError(String),
    /// Not supported error
    NotSupportedError { feature: String },
}

/// Error categories of the simulator.
#[derive(Debug, Clone, Copy, PartialEq, Eq, Hash, Structural)]
pub enum ErrorCategory {
    Configuration,
    ChargePoint,
    Network,
    Api,
    Scenario,
    FaultInjection,
    MeterSimulation,
    EventHandling,
    Serialization,
    Io,
    Timeout,
    State,
    Resource,
    ExternalService,
    Auth,
    RateLimit,
    Concurrency,
    Internal,
    NotSupported,
}

/// Error severity levels, from least to most severe.
#[derive(Debug, Clone, Copy, PartialEq, Eq, PartialOrd, Ord, Structural)]
pub enum ErrorSeverity {
    Warning,
    Error,
    Critical,
}

impl ErrorSeverity {
    /// Position of the level in the order Warning < Error < Critical.
    pub open spec fn rank(self) -> int {
        match self {
            ErrorSeverity::Warning => 0,
            ErrorSeverity::Error => 1,
            ErrorSeverity::Critical => 2,
        }
    }

    /// The label the level is displayed with.
    pub open spec fn label(self) -> Seq<char> {
        match self {
            ErrorSeverity::Warning => "WARNING"@,
            ErrorSeverity::Error => "ERROR"@,
            ErrorSeverity::Critical => "CRITICAL"@,
        }
    }

    /// The displayed label of the level.
    pub fn to_string(&self) -> (s: String)
        ensures
            s@ == self.label(),
    {
        match self {
            ErrorSeverity::Warning => String::from_str("WARNING"),
            ErrorSeverity::Error => String::from_str("ERROR"),
            ErrorSeverity::Critical => String::from_str("CRITICAL"),
        }
    }
}

impl ErrorCategory {
    /// The label the category is displayed with.
    pub open spec fn label(self) -> Seq<char> {
        match self {
            ErrorCategory::Configuration => "Configuration"@,
            ErrorCategory::ChargePoint => "ChargePoint"@,
            ErrorCategory::Network => "Network"@,
            ErrorCategory::Api => "API"@,
            ErrorCategory::Scenario => "Scenario"@,
            ErrorCategory::FaultInjection => "FaultInjection"@,
            ErrorCategory::MeterSimulation => "MeterSimulation"@,
            ErrorCategory::EventHandling => "EventHandling"@,
            ErrorCategory::Serialization => "Serialization"@,
            ErrorCategory::Io => "IO"@,
            ErrorCategory::Timeout => "Timeout"@,
            ErrorCategory::State => "State"@,
            ErrorCategory::Resource => "Resource"@,
            ErrorCategory::ExternalService => "ExternalService"@,
            ErrorCategory::Auth => "Authentication"@,
            ErrorCategory::RateLimit => "RateLimit"@,
            ErrorCategory::Concurrency => "Concurrency"@,
            ErrorCategory::Internal => "Internal"@,
            ErrorCategory::NotSupported => "NotSupported"@,
        }
    }

    /// The displayed label of the category.
    pub fn to_string(&self) -> (s: String)
        ensures
            s@ == self.label(),
    {
        match self {
            ErrorCategory::Configuration => String::from_str("Configuration"),
            ErrorCategory::ChargePoint => String::from_str("ChargePoint"),
            ErrorCategory::Network => String::from_str("Network"),
            ErrorCategory::Api => String::from_str("API"),
            ErrorCategory::Scenario => String::from_str("Scenario"),
            ErrorCategory::FaultInjection => String::from_str("FaultInjection"),
            ErrorCategory::MeterSimulation => String::from_str("MeterSimulation"),
            ErrorCategory::EventHandling => String::from_str("EventHandling"),
            ErrorCategory::Serialization => String::from_str("Serialization"),
            ErrorCategory::Io => String::from_str("IO"),
            ErrorCategory::Timeout => String::from_str("Timeout"),
            ErrorCategory::State => String::from_str("State"),
            ErrorCategory::Resource => String::from_str("Resource"),
            ErrorCategory::ExternalService => String::from_str("ExternalService"),
            ErrorCategory::Auth => String::from_str("Authentication"),
            ErrorCategory::RateLimit => String::from_str("RateLimit"),
            ErrorCategory::Concurrency => String::from_str("Concurrency"),
            ErrorCategory::Internal => String::from_str("Internal"),
            ErrorCategory::NotSupported => String::from_str("NotSupported"),
        }
    }
}

impl SimulatorError {
    /// Errors that can be retried or worked around without intervention.
    pub open spec fn recoverable(self) -> bool {
        ||| self is ConnectionError
        ||| self is TimeoutError
        ||| self is ExternalServiceError
        ||| self is RateLimitError
        ||| self is ConcurrentOperationError
        ||| self is WebSocketError
    }

    /// Category assigned to each kind of error.
    pub open spec fn category_of(self) -> ErrorCategory {
        match self {
            Self::ConfigurationError(_) | Self::ValidationError { .. } => ErrorCategory::Configuration,
            Self::ChargePointError(_) => ErrorCategory::ChargePoint,
            Self::ConnectionError(_) | Self::WebSocketError(_) => ErrorCategory::Network,
            Self::ApiServerError(_) => ErrorCategory::Api,
            Self::ScenarioExecutionError { .. } | Self::ScenarioValidationError { .. } => ErrorCategory::Scenario,
            Self::FaultInjectionError { .. } => ErrorCategory::FaultInjection,
            Self::MeterSimulationError(_) => ErrorCategory::MeterSimulation,
            Self::EventHandlingError(_) => ErrorCategory::EventHandling,
            Self::SerializationError(_) => ErrorCategory::Serialization,
            Self::IoError(_) => ErrorCategory::Io,
            Self::TimeoutError { .. } => ErrorCategory::Timeout,
            Self::InvalidStateError { .. } => ErrorCategory::State,
            Self::ResourceNotFoundError { .. } => ErrorCategory::Resource,
            Self::ExternalServiceError { .. } => ErrorCategory::ExternalService,
            Self::AuthenticationError(_) | Self::AuthorizationError(_) => ErrorCategory::Auth,
            Self::RateLimitError { .. } => ErrorCategory::RateLimit,
            Self::ConcurrentOperationError(_) => ErrorCategory::Concurrency,
            Self::InternalError(_) => ErrorCategory::Internal,
            Self::NotSupportedError { .. } => ErrorCategory::NotSupported,
        }
    }

    /// Severity assigned to each kind of error.
    pub open spec fn severity_of(self) -> ErrorSeverity {
        match self {
            Self::ValidationError { .. } | Self::InvalidStateError { .. }
            | Self::ResourceNotFoundError { .. } | Self::NotSupportedError { .. } => ErrorSeverity::Warning,
            Self::ConnectionError(_) | Self::TimeoutError { .. } | Self::ExternalServiceError { .. }
            | Self::RateLimitError { .. } | Self::ConcurrentOperationError(_) | Self::WebSocketError(_)
            | Self::IoError(_) | Self::EventHandlingError(_) | Self::MeterSimulationError(_)
            | Self::FaultInjectionError { .. } => ErrorSeverity::Error,
            _ => ErrorSeverity::Critical,
        }
    }

    /// Suggested retry delay in milliseconds, if the error is worth retrying.
    pub open spec fn retry_delay_of(self) -> Option<u64> {
        match self {
            Self::ConnectionError(_) => Some(5000),
            Self::WebSocketError(_) => Some(3000),
            Self::TimeoutError { .. } => Some(1000),
            Self::ExternalServiceError { .. } => Some(10000),
            Self::RateLimitError { .. } => Some(60000),
            Self::ConcurrentOperationError(_) => Some(500),
            _ => None,
        }
    }

    /// The text the error is displayed with.
    pub open spec fn display(self) -> Seq<char> {
        match self {
            Self::ConfigurationError(m) => "Configuration error: "@ + m@,
            Self::ChargePointError(m) => "Charge point error: "@ + m@,
            Self::ConnectionError(m) => "Connection error: "@ + m@,
            Self::ApiServerError(m) => "API server error: "@ + m@,
            Self::ScenarioExecutionError { scenario, message } =>
                "Scenario execution error: "@ + scenario@ + " - "@ + message@,
            Self::ScenarioValidationError { scenario, message } =>
                "Scenario validation error: "@ + scenario@ + " - "@ + message@,
            Self::FaultInjectionError { connector_id, message } =>
                "Fault injection error on connector "@ + decimal(connector_id as nat) + ": "@ + message@,
            Self::MeterSimulationError(m) => "Meter simulation error: "@ + m@,
            Self::EventHandlingError(m) => "Event handling error: "@ + m@,
            Self::WebSocketError(m) => "WebSocket error: "@ + m@,
            Self::SerializationError(m) => "Serialization error: "@ + m@,
            Self::IoError(m) => "I/O error: "@ + m@,
            Self::TimeoutError { operation, duration_ms } =>
                "Timeout: "@ + operation@ + " after "@ + decimal(duration_ms as nat) + "ms"@,
            Self::InvalidStateError { operation, current_state } =>
                "Invalid state for operation: "@ + operation@ + " in state "@ + current_state@,
            Self::ResourceNotFoundError { resource_type, resource_id } =>
                "Resource not found: "@ + resource_type@ + " '"@ + resource_id@ + "'"@,
            Self::ValidationError { field, message } =>
                "Validation error: "@ + field@ + " - "@ + message@,
            Self::ExternalServiceError { service, message } =>
                "External service error: "@ + service@ + " - "@ + message@,
            Self::AuthenticationError(m) => "Authentication error: "@ + m@,
            Self::AuthorizationError(m) => "Authorization error: "@ + m@,
            Self::RateLimitError { operation, limit, window } =>
                "Rate limit exceeded: "@ + operation@ + " - "@ + decimal(limit as nat)
                    + " requests per "@ + window@,
            Self::ConcurrentOperationError(m) => "Concurrent operation not allowed: "@ + m@,
            Self::InternalError(m) => "Internal error: "@ + m@,
            Self::NotSupportedError { feature } => "Feature not supported: "@ + feature@,
        }
    }

    /// Create a configuration error.
    pub fn configuration(message: &str) -> (r: Self)
        ensures
            r matches Self::ConfigurationError(m) && m@ == message@,
    {
        Self::ConfigurationError(String::from_str(message))
    }

    /// Create a charge point error.
    pub fn charge_point(message: &str) -> (r: Self)
        ensures
            r matches Self::ChargePointError(m) && m@ == message@,
    {
        Self::ChargePointError(String::from_str(message))
    }

    /// Create a connection error.
    pub fn connection(message: &str) -> (r: Self)
        ensures
            r matches Self::ConnectionError(m) && m@ == message@,
    {
        Self::ConnectionError(String::from_str(message))
    }

    /// Create an API server error.
    pub fn api_server(message: &str) -> (r: Self)
        ensures
            r matches Self::ApiServerError(m) && m@ == message@,
    {
        Self::ApiServerError(String::from_str(message))
    }

    /// Create a scenario execution error.
    pub fn scenario_execution(scenario: &str, message: &str) -> (r: Self)
        ensures
            r matches Self::ScenarioExecutionError { scenario: s, message: m }
                && s@ == scenario@ && m@ == message@,
    {
        Self::ScenarioExecutionError { scenario: String::from_str(scenario), message: String::from_str(message) }
    }

    /// Create a scenario validation error.
    pub fn scenario_validation(scenario: &str, message: &str) -> (r: Self)
        ensures
            r matches Self::ScenarioValidationError { scenario: s, message: m }
                && s@ == scenario@ && m@ == message@,
    {
        Self::ScenarioValidationError { scenario: String::from_str(scenario), message: String::from_str(message) }
    }

    /// Create a fault injection error.
    pub fn fault_injection(connector_id: u32, message: &str) -> (r: Self)
        ensures
            r matches Self::FaultInjectionError { connector_id: c, message: m }
                && c == connector_id && m@ == message@,
    {
        Self::FaultInjectionError { connector_id, message: String::from_str(message) }
    }

    /// Create a meter simulation error.
    pub fn meter_simulation(message: &str) -> (r: Self)
        ensures
            r matches Self::MeterSimulationError(m) && m@ == message@,
    {
        Self::MeterSimulationError(String::from_str(message))
    }

    /// Create an event handling error.
    pub fn event_handling(message: &str) -> (r: Self)
        ensures
            r matches Self::EventHandlingError(m) && m@ == message@,
    {
        Self::EventHandlingError(String::from_str(message))
    }

    /// Create a WebSocket error.
    pub fn websocket(message: &str) -> (r: Self)
        ensures
            r matches Self::WebSocketError(m) && m@ == message@,
    {
        Self::WebSocketError(String::from_str(message))
    }

    /// Create a serialization error.
    pub fn serialization(message: &str) -> (r: Self)
        ensures
            r matches Self::SerializationError(m) && m@ == message@,
    {
        Self::SerializationError(String::from_str(message))
    }

    /// Create an I/O error.
    pub fn io(message: &str) -> (r: Self)
        ensures
            r matches Self::IoError(m) && m@ == message@,
    {
        Self::IoError(String::from_str(message))
    }

    /// Create a timeout error.
    pub fn timeout(operation: &str, duration_ms: u64) -> (r: Self)
        ensures
            r matches Self::TimeoutError { operation: o, duration_ms: d }
                && o@ == operation@ && d == duration_ms,
    {
        Self::TimeoutError { operation: String::from_str(operation), duration_ms }
    }

    /// Create an invalid state error.
    pub fn invalid_state(operation: &str, current_state: &str) -> (r: Self)
        ensures
            r matches Self::InvalidStateError { operation: o, current_state: c }
                && o@ == operation@ && c@ == current_state@,
    {
        Self::InvalidStateError {
            operation: String::from_str(operation),
            current_state: String::from_str(current_state),
        }
    }

    /// Create a resource not found error.
    pub fn resource_not_found(resource_type: &str, resource_id: &str) -> (r: Self)
        ensures
            r matches Self::ResourceNotFoundError { resource_type: t, resource_id: i }
                && t@ == resource_type@ && i@ == resource_id@,
    {
        Self::ResourceNotFoundError {
            resource_type: String::from_str(resource_type),
            resource_id: String::from_str(resource_id),
        }
    }

    /// Create a validation error.
    pub fn validation(field: &str, message: &str) -> (r: Self)
        ensures
            r matches Self::ValidationError { field: f, message: m }
                && f@ == field@ && m@ == message@,
    {
        Self::ValidationError { field: String::from_str(field), message: String::from_str(message) }
    }

    /// Create an external service error.
    pub fn external_service(service: &str, message: &str) -> (r: Self)
        ensures
            r matches Self::ExternalServiceError { service: s, message: m }
                && s@ == service@ && m@ == message@,
    {
        Self::ExternalServiceError { service: String::from_str(service), message: String::from_str(message) }
    }

    /// Create an authentication error.
    pub fn authentication(message: &str) -> (r: Self)
        ensures
            r matches Self::AuthenticationError(m) && m@ == message@,
    {
        Self::AuthenticationError(String::from_str(message))
    }

    /// Create an authorization error.
    pub fn authorization(message: &str) -> (r: Self)
        ensures
            r matches Self::AuthorizationError(m) && m@ == message@,
    {
        Self::AuthorizationError(String::from_str(message))
    }

    /// Create a rate limit error.
    pub fn rate_limit(operation: &str, limit: u32, window: &str) -> (r: Self)
        ensures
            r matches Self::RateLimitError { operation: o, limit: l, window: w }
                && o@ == operation@ && l == limit && w@ == window@,
    {
        Self::RateLimitError {
            operation: String::from_str(operation),
            limit,
            window: String::from_str(window),
        }
    }

    /// Create a concurrent operation error.
    pub fn concurrent_operation(message: &str) -> (r: Self)
        ensures
            r matches Self::ConcurrentOperationError(m) && m@ == message@,
    {
        Self::ConcurrentOperationError(String::from_str(message))
    }

    /// Create an internal error.
    pub fn internal(message: &str) -> (r: Self)
        ensures
            r matches Self::InternalError(m) && m@ == message@,
    {
        Self::InternalError(String::from_str(message))
    }

    /// Create a not supported error.
    pub fn not_supported(feature: &str) -> (r: Self)
        ensures
            r matches Self::NotSupportedError { feature: f } && f@ == feature@,
    {
        Self::NotSupportedError { feature: String::from_str(feature) }
    }

    /// Check if the error is recoverable.
    pub fn is_recoverable(&self) -> (r: bool)
        ensures
            r == self.recoverable(),
    {
        match self {
            Self::ConnectionError(_)
            | Self::TimeoutError { .. }
            | Self::ExternalServiceError { .. }
            | Self::RateLimitError { .. }
            | Self::ConcurrentOperationError(_)
            | Self::WebSocketError(_) => true,
            Self::ConfigurationError(_)
            | Self::ValidationError { .. }
            | Self::AuthenticationError(_)
            | Self::AuthorizationError(_)
            | Self::NotSupportedError { .. }
            | Self::SerializationError(_)
            | Self::ScenarioValidationError { .. }
            | Self::InvalidStateError { .. }
            | Self::InternalError(_) => false,
            Self::ChargePointError(_)
            | Self::ApiServerError(_)
            | Self::ScenarioExecutionError { .. }
            | Self::FaultInjectionError { .. }
            | Self::MeterSimulationError(_)
            | Self::EventHandlingError(_)
            | Self::IoError(_)
            | Self::ResourceNotFoundError { .. } => false,
        }
    }

    /// Get the error category.
    pub fn category(&self) -> (r: ErrorCategory)
        ensures
            r == self.category_of(),
    {
        match self {
            Self::ConfigurationError(_) | Self::ValidationError { .. } => ErrorCategory::Configuration,
            Self::ChargePointError(_) => ErrorCategory::ChargePoint,
            Self::ConnectionError(_) | Self::WebSocketError(_) => ErrorCategory::Network,
            Self::ApiServerError(_) => ErrorCategory::Api,
            Self::ScenarioExecutionError { .. } | Self::ScenarioValidationError { .. } => {
                ErrorCategory::Scenario
            },
            Self::FaultInjectionError { .. } => ErrorCategory::FaultInjection,
            Self::MeterSimulationError(_) => ErrorCategory::MeterSimulation,
            Self::EventHandlingError(_) => ErrorCategory::EventHandling,
            Self::SerializationError(_) => ErrorCategory::Serialization,
            Self::IoError(_) => ErrorCategory::Io,
            Self::TimeoutError { .. } => ErrorCategory::Timeout,
            Self::InvalidStateError { .. } => ErrorCategory::State,
            Self::ResourceNotFoundError { .. } => ErrorCategory::Resource,
            Self::ExternalServiceError { .. } => ErrorCategory::ExternalService,
            Self::AuthenticationError(_) | Self::AuthorizationError(_) => ErrorCategory::Auth,
            Self::RateLimitError { .. } => ErrorCategory::RateLimit,
            Self::ConcurrentOperationError(_) => ErrorCategory::Concurrency,
            Self::InternalError(_) => ErrorCategory::Internal,
            Self::NotSupportedError { .. } => ErrorCategory::NotSupported,
        }
    }

    /// Get the error severity.
    pub fn severity(&self) -> (r: ErrorSeverity)
        ensures
            r == self.severity_of(),
    {
        match self {
            Self::ValidationError { .. }
            | Self::InvalidStateError { .. }
            | Self::ResourceNotFoundError { .. }
            | Self::NotSupportedError { .. } => ErrorSeverity::Warning,
            Self::ConnectionError(_)
            | Self::TimeoutError { .. }
            | Self::ExternalServiceError { .. }
            | Self::RateLimitError { .. }
            | Self::ConcurrentOperationError(_)
            | Self::WebSocketError(_)
            | Self::IoError(_)
            | Self::EventHandlingError(_)
            | Self::MeterSimulationError(_)
            | Self::FaultInjectionError { .. } => ErrorSeverity::Error,
            Self::ConfigurationError(_)
            | Self::ChargePointError(_)
            | Self::ApiServerError(_)
            | Self::ScenarioExecutionError { .. }
            | Self::ScenarioValidationError { .. }
            | Self::SerializationError(_)
            | Self::AuthenticationError(_)
            | Self::AuthorizationError(_)
            | Self::InternalError(_) => ErrorSeverity::Critical,
        }
    }

    /// Get the suggested retry delay in milliseconds.
    pub fn suggested_retry_delay(&self) -> (r: Option<u64>)
        ensures
            r == self.retry_delay_of(),
    {
        match self {
            Self::ConnectionError(_) => Some(5000),
            Self::WebSocketError(_) => Some(3000),
            Self::TimeoutError { .. } => Some(1000),
            Self::ExternalServiceError { .. } => Some(10000),
            Self::RateLimitError { .. } => Some(60000),
            Self::ConcurrentOperationError(_) => Some(500),
            _ => None,
        }
    }

    /// The text the error is displayed with.
    pub fn to_string(&self) -> (s: String)
        ensures
            s@ == self.display(),
    {
        match self {
            Self::ConfigurationError(m) => concat2("Configuration error: ", m.as_str()),
            Self::ChargePointError(m) => concat2("Charge point error: ", m.as_str()),
            Self::ConnectionError(m) => concat2("Connection error: ", m.as_str()),
            Self::ApiServerError(m) => concat2("API server error: ", m.as_str()),
            Self::ScenarioExecutionError { scenario, message } => {
                concat4("Scenario execution error: ", scenario.as_str(), " - ", message.as_str())
            },
            Self::ScenarioValidationError { scenario, message } => {
                concat4("Scenario validation error: ", scenario.as_str(), " - ", message.as_str())
            },
            Self::FaultInjectionError { connector_id, message } => {
                let id = u64_to_text(*connector_id as u64);
                concat4("Fault injection error on connector ", id.as_str(), ": ", message.as_str())
            },
            Self::MeterSimulationError(m) => concat2("Meter simulation error: ", m.as_str()),
            Self::EventHandlingError(m) => concat2("Event handling error: ", m.as_str()),
            Self::WebSocketError(m) => concat2("WebSocket error: ", m.as_str()),
            Self::SerializationError(m) => concat2("Serialization error: ", m.as_str()),
            Self::IoError(m) => concat2("I/O error: ", m.as_str()),
            Self::TimeoutError { operation, duration_ms } => {
                let d = u64_to_text(*duration_ms);
                let mut s = concat4("Timeout: ", operation.as_str(), " after ", d.as_str());
                s.append("ms");
                s
            },
            Self::InvalidStateError { operation, current_state } => {
                concat4("Invalid state for operation: ", operation.as_str(), " in state ", current_state.as_str())
            },
            Self::ResourceNotFoundError { resource_type, resource_id } => {
                let mut s = concat4("Resource not found: ", resource_type.as_str(), " '", resource_id.as_str());
                s.append("'");
                s
            },
            Self::ValidationError { field, message } => {
                concat4("Validation error: ", field.as_str(), " - ", message.as_str())
            },
            Self::ExternalServiceError { service, message } => {
                concat4("External service error: ", service.as_str(), " - ", message.as_str())
            },
            Self::AuthenticationError(m) => concat2("Authentication error: ", m.as_str()),
            Self::AuthorizationError(m) => concat2("Authorization error: ", m.as_str()),
            Self::RateLimitError { operation, limit, window } => {
                let l = u64_to_text(*limit as u64);
                concat6("Rate limit exceeded: ", operation.as_str(), " - ", l.as_str(), " requests per ", window.as_str())
            },
            Self::ConcurrentOperationError(m) => concat2("Concurrent operation not allowed: ", m.as_str()),
            Self::InternalError(m) => concat2("Internal error: ", m.as_str()),
            Self::NotSupportedError { feature } => concat2("Feature not supported: ", feature.as_str()),
        }
    }
}

/// An error is worth retrying exactly when it comes with a suggested retry delay.
pub proof fn lemma_recoverable_iff_retry_delay(e: SimulatorError)
    ensures
        e.recoverable() <==> e.retry_delay_of() is Some,
{
}

/// Critical errors are never recoverable, and recoverable errors are always of
/// severity `Error`.
pub proof fn lemma_recoverable_errors_are_not_critical(e: SimulatorError)
    ensures
        e.severity_of() == ErrorSeverity::Critical ==> !e.recoverable(),
        e.recoverable() ==> e.severity_of() == ErrorSeverity::Error,
{
}

/// Severity levels are totally ordered: Warning below Error below Critical.
pub proof fn lemma_severity_order()
    ensures
        ErrorSeverity::Warning.rank() < ErrorSeverity::Error.rank(),
        ErrorSeverity::Error.rank() < ErrorSeverity::Critical.rank(),
{
}

/// Every error is displayed with a non-empty text.
pub proof fn lemma_display_non_empty(e: SimulatorError)
    ensures
        e.display().len() > 0,
{
    reveal_strlit("Scenario execution error: ");
    reveal_strlit("Scenario validation error: ");
    reveal_strlit("Fault injection error on connector ");
    reveal_strlit("Timeout: ");
    reveal_strlit("Invalid state for operation: ");
    reveal_strlit("Resource not found: ");
    reveal_strlit("Validation error: ");
    reveal_strlit("External service error: ");
    reveal_strlit("Rate limit exceeded: ");
    reveal_strlit("API server error: ");
    reveal_strlit("Authentication error: ");
    reveal_strlit("Authorization error: ");
    reveal_strlit("Charge point error: ");
    reveal_strlit("Concurrent operation not allowed: ");
    reveal_strlit("Configuration error: ");
    reveal_strlit("Connection error: ");
    reveal_strlit("Event handling error: ");
    reveal_strlit("Feature not supported: ");
    reveal_strlit("I/O error: ");
    reveal_strlit("Internal error: ");
    reveal_strlit("Meter simulation error: ");
    reveal_strlit("Serialization error: ");
    reveal_strlit("WebSocket error: ");
}

/// Error context for additional debugging information.
#[derive(Debug, Clone)]
pub struct ErrorContext {
    /// Source location where error occurred
    pub source: Option<String>,
    /// Additional context data
    pub context: ContextMap,
    /// Timestamp when error occurred
    pub timestamp: Timestamp,
    /// Request ID for tracing (if applicable)
    pub request_id: Option<String>,
    /// User ID associated with operation (if applicable)
    pub user_id: Option<String>,
}

impl ErrorContext {
    /// A context without source, data, request or user, stamped now.
    pub fn new() -> (r: Self)
        ensures
            r.source is None,
            r.context@ =~= Map::empty(),
            r.request_id is None,
            r.user_id is None,
    {
        ErrorContext {
            source: None,
            context: ContextMap::new(),
            timestamp: Timestamp::now(),
            request_id: None,
            user_id: None,
        }
    }

    /// A context with a source location only, stamped now.
    pub fn with_source(source: &str) -> (r: Self)
        ensures
            r.source matches Some(s) && s@ == source@,
            r.context@ =~= Map::empty(),
            r.request_id is None,
            r.user_id is None,
    {
        ErrorContext {
            source: Some(String::from_str(source)),
            context: ContextMap::new(),
            timestamp: Timestamp::now(),
            request_id: None,
            user_id: None,
        }
    }

    /// The context with one more datum; a key already present takes the new value.
    pub fn add_context(self, key: &str, value: &str) -> (r: Self)
        ensures
            r.source == self.source,
            r.timestamp == self.timestamp,
            r.request_id == self.request_id,
            r.user_id == self.user_id,
            r.context@ == self.context@.insert(key@, value@),
    {
        let mut c = self;
        c.context.insert(String::from_str(key), String::from_str(value));
        c
    }

    /// The context with the given request ID.
    pub fn with_request_id(self, request_id: &str) -> (r: Self)
        ensures
            r.source == self.source,
            r.timestamp == self.timestamp,
            r.user_id == self.user_id,
            r.context == self.context,
            r.request_id matches Some(id) && id@ == request_id@,
    {
        let mut c = self;
        c.request_id = Some(String::from_str(request_id));
        c
    }

    /// The context with the given user ID.
    pub fn with_user_id(self, user_id: &str) -> (r: Self)
        ensures
            r.source == self.source,
            r.timestamp == self.timestamp,
            r.request_id == self.request_id,
            r.context == self.context,
            r.user_id matches Some(id) && id@ == user_id@,
    {
        let mut c = self;
        c.user_id = Some(String::from_str(user_id));
        c
    }
}

impl Default for ErrorContext {
    fn default() -> (r: Self)
        ensures
            r.source is None,
            r.context@ =~= Map::empty(),
            r.request_id is None,
            r.user_id is None,
    {
        Self::new()
    }
}

/// The part of an extended simulator error's text after its ID: the error,
/// then its source and request ID when there are any.
pub open spec fn extended_tail(error: SimulatorError, context: ErrorContext) -> Seq<char> {
    "] "@ + error.display()
        + match context.source {
            Some(s) => " (source: "@ + s@ + ")"@,
            None => seq![],
        }
        + match context.request_id {
            Some(r) => " (request: "@ + r@ + ")"@,
            None => seq![],
        }
}

/// Extended simulator error with context.
#[derive(Debug, Clone)]
pub struct ExtendedSimulatorError {
    /// Base error
    pub error: SimulatorError,
    /// Error context
    pub context: ErrorContext,
    /// Error ID for tracking
    pub id: uuid::Uuid,
}

impl ExtendedSimulatorError {
    /// The error with an empty context and a fresh random ID.
    pub fn new(error: SimulatorError) -> (r: Self)
        ensures
            r.error == error,
            r.context.source is None,
            r.context.request_id is None,
            r.context.context@ =~= Map::empty(),
    {
        ExtendedSimulatorError { error, context: ErrorContext::new(), id: new_uuid() }
    }

    /// The error with the given context and a fresh random ID.
    pub fn with_context(error: SimulatorError, context: ErrorContext) -> (r: Self)
        ensures
            r.error == error,
            r.context == context,
    {
        ExtendedSimulatorError { error, context, id: new_uuid() }
    }

    /// The error with one more context datum.
    pub fn add_context(self, key: &str, value: &str) -> (r: Self)
        ensures
            r.error == self.error,
            r.id == self.id,
            r.context.source == self.context.source,
            r.context.request_id == self.context.request_id,
            r.context.context@ == self.context.context@.insert(key@, value@),
    {
        let ExtendedSimulatorError { error, context, id } = self;
        ExtendedSimulatorError { error, context: context.add_context(key, value), id }
    }

    /// The text the error is displayed with: its ID in brackets (hyphenated),
    /// the error, then its source and request ID.
    pub fn to_string(&self) -> (s: String)
        ensures
            s@.len() >= 37,
            s@[0] == '[',
            is_hyphenated_uuid(s@.subrange(1, 37)),
            s@.subrange(37, s@.len() as int) == extended_tail(self.error, self.context),
    {
        let id = uuid_text(&self.id);
        let mut s = String::from_str("[");
        s.append(id.as_str());
        let ghost head = s@;
        s.append("] ");
        let e = self.error.to_string();
        s.append(e.as_str());
        match &self.context.source {
            Some(src) => {
                s.append(" (source: ");
                s.append(src.as_str());
                s.append(")");
            },
            None => {},
        }
        match &self.context.request_id {
            Some(req) => {
                s.append(" (request: ");
                s.append(req.as_str());
                s.append(")");
            },
            None => {},
        }
        proof {
            reveal_strlit("[");
            assert(head.len() == 37);
            assert(s@.subrange(1, 37) =~= id@);
            assert(s@.subrange(37, s@.len() as int) =~= extended_tail(self.error, self.context));
        }
        s
    }
}

} // verus!
