//! Vocabulary shared by the OCPP-J message layer: message type identifiers,
//! CALLERROR codes and the protocol-level error type.

use vstd::prelude::*;
use crate::text::{concat2, u64_to_text, decimal};

verus! {

/// OCPP-J message type identifiers.
#[derive(Debug, Clone, Copy, PartialEq, Eq, Structural)]
pub enum MessageType {
    /// CALL (request), numbered 2 on the wire
    Call,
    /// CALLRESULT (successful response), numbered 3 on the wire
    CallResult,
    /// CALLERROR (error response), numbered 4 on the wire
    CallError,
}

impl MessageType {
    /// The number that identifies the message type on the wire.
    pub open spec fn code(self) -> u8 {
        match self {
            MessageType::Call => 2,
            MessageType::CallResult => 3,
            MessageType::CallError => 4,
        }
    }

    /// The number that identifies the message type on the wire.
    pub fn as_u8(&self) -> (r: u8)
        ensures
            r == self.code(),
    {
        match self {
            MessageType::Call => 2,
            MessageType::CallResult => 3,
            MessageType::CallError => 4,
        }
    }
}

/// CALLERROR error codes of OCPP-J 1.6.
#[derive(Debug, Clone, Copy, PartialEq, Eq, Structural)]
pub enum CallErrorCode {
    NotImplemented,
    NotSupported,
    InternalError,
    ProtocolError,
    SecurityError,
    FormationViolation,
    PropertyConstraintViolation,
    OccurrenceConstraintViolation,
    TypeConstraintViolation,
    GenericError,
}

impl CallErrorCode {
    /// The name of the code as it is written on the wire.
    pub open spec fn name(self) -> Seq<char> {
        match self {
            CallErrorCode::NotImplemented => "NotImplemented"@,
            CallErrorCode::NotSupported => "NotSupported"@,
            CallErrorCode::InternalError => "InternalError"@,
            CallErrorCode::ProtocolError => "ProtocolError"@,
            CallErrorCode::SecurityError => "SecurityError"@,
            CallErrorCode::FormationViolation => "FormationViolation"@,
            CallErrorCode::PropertyConstraintViolation => "PropertyConstraintViolation"@,
            CallErrorCode::OccurrenceConstraintViolation => "OccurrenceConstraintViolation"@,
            CallErrorCode::TypeConstraintViolation => "TypeConstraintViolation"@,
            CallErrorCode::GenericError => "GenericError"@,
        }
    }

    /// The name of the code as it is written on the wire.
    pub fn as_str(&self) -> (r: &'static str)
        ensures
            r@ == self.name(),
    {
        match self {
            CallErrorCode::NotImplemented => "NotImplemented",
            CallErrorCode::NotSupported => "NotSupported",
            CallErrorCode::InternalError => "InternalError",
            CallErrorCode::ProtocolError => "ProtocolError",
            CallErrorCode::SecurityError => "SecurityError",
            CallErrorCode::FormationViolation => "FormationViolation",
            CallErrorCode::PropertyConstraintViolation => "PropertyConstraintViolation",
            CallErrorCode::OccurrenceConstraintViolation => "OccurrenceConstraintViolation",
            CallErrorCode::TypeConstraintViolation => "TypeConstraintViolation",
            CallErrorCode::GenericError => "GenericError",
        }
    }
}

/// Protocol-level errors of the OCPP message layer.
#[derive(Debug, Clone)]
pub enum OcppError {
    /// A message or field does not meet the specification's constraints
    ValidationError { message: String },
    /// A frame carries a message type number that does not fit its shape
    InvalidMessageType(u8),
    /// A frame breaks the protocol
    ProtocolViolation { message: String },
    /// Persistence failed
    Database { message: String },
    /// The transport failed
    Transport { message: String },
    /// JSON could not be read or written
    Json { message: String },
    /// An operation did not complete in time
    Timeout { operation: String },
}

impl OcppError {
    /// The text the error is displayed with.
    pub open spec fn display(self) -> Seq<char> {
        match self {
            OcppError::ValidationError { message } => "Validation error: "@ + message@,
            OcppError::InvalidMessageType(t) => "Invalid message type: "@ + decimal(t as nat),
            OcppError::ProtocolViolation { message } => "Protocol violation: "@ + message@,
            OcppError::Database { message } => "Database error: "@ + message@,
            OcppError::Transport { message } => "Transport error: "@ + message@,
            OcppError::Json { message } => "JSON error: "@ + message@,
            OcppError::Timeout { operation } => "Timeout: "@ + operation@,
        }
    }

    /// A validation error with the given message.
    pub fn validation(message: &str) -> (r: Self)
        ensures
            r matches OcppError::ValidationError { message: m } && m@ == message@,
    {
        OcppError::ValidationError { message: String::from_str(message) }
    }

    /// The text the error is displayed with.
    pub fn to_string(&self) -> (s: String)
        ensures
            s@ == self.display(),
    {
        match self {
            OcppError::ValidationError { message } => concat2("Validation error: ", message.as_str()),
            OcppError::InvalidMessageType(t) => {
                let n = u64_to_text(*t as u64);
                concat2("Invalid message type: ", n.as_str())
            },
            OcppError::ProtocolViolation { message } => concat2("Protocol violation: ", message.as_str()),
            OcppError::Database { message } => concat2("Database error: ", message.as_str()),
            OcppError::Transport { message } => concat2("Transport error: ", message.as_str()),
            OcppError::Json { message } => concat2("JSON error: ", message.as_str()),
            OcppError::Timeout { operation } => concat2("Timeout: ", operation.as_str()),
        }
    }
}

} // verus!
