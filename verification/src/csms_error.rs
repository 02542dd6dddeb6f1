//! Errors of the central system (CSMS) and how the errors of the protocol and
//! transport layers map onto them.

use vstd::prelude::*;
use crate::text::{concat2, concat4, decimal, i64_to_text, signed_decimal, u64_to_text};
use crate::transport::TransportError;
use crate::types::OcppError;

verus! {

/// Main error type for CSMS operations.
#[derive(Debug)]
pub enum CsmsError {
    /// Database error
    Database { message: String },
    /// Configuration error
    Configuration { message: String },
    /// Transport error
    Transport { message: String },
    /// Authentication error
    Authentication { message: String },
    /// Authorization error
    Authorization { message: String },
    /// Validation error
    Validation { message: String },
    /// Charge point not found
    ChargePointNotFound { charge_point_id: String },
    /// Transaction not found
    TransactionNotFound { transaction_id: i32 },
    /// Connector not available
    ConnectorNotAvailable { charge_point_id: String, connector_id: u32 },
    /// Internal error
    Internal { message: String },
}

impl CsmsError {
    /// The text the error is displayed with.
    pub open spec fn display(self) -> Seq<char> {
        match self {
            CsmsError::Database { message } => "Database error: "@ + message@,
            CsmsError::Configuration { message } => "Configuration error: "@ + message@,
            CsmsError::Transport { message } => "Transport error: "@ + message@,
            CsmsError::Authentication { message } => "Authentication error: "@ + message@,
            CsmsError::Authorization { message } => "Authorization error: "@ + message@,
            CsmsError::Validation { message } => "Validation error: "@ + message@,
            CsmsError::ChargePointNotFound { charge_point_id } => "Charge point not found: "@ + charge_point_id@,
            CsmsError::TransactionNotFound { transaction_id } => "Transaction not found: "@
                + signed_decimal(transaction_id as int),
            CsmsError::ConnectorNotAvailable { charge_point_id, connector_id } => "Connector not available: "@
                + charge_point_id@ + "/"@ + decimal(connector_id as nat),
            CsmsError::Internal { message } => "Internal error: "@ + message@,
        }
    }

    /// The text the error is displayed with.
    pub fn to_string(&self) -> (s: String)
        ensures
            s@ == self.display(),
    {
        match self {
            CsmsError::Database { message } => concat2("Database error: ", message.as_str()),
            CsmsError::Configuration { message } => concat2("Configuration error: ", message.as_str()),
            CsmsError::Transport { message } => concat2("Transport error: ", message.as_str()),
            CsmsError::Authentication { message } => concat2("Authentication error: ", message.as_str()),
            CsmsError::Authorization { message } => concat2("Authorization error: ", message.as_str()),
            CsmsError::Validation { message } => concat2("Validation error: ", message.as_str()),
            CsmsError::ChargePointNotFound { charge_point_id } => concat2(
                "Charge point not found: ",
                charge_point_id.as_str(),
            ),
            CsmsError::TransactionNotFound { transaction_id } => {
                let n = i64_to_text(*transaction_id as i64);
                concat2("Transaction not found: ", n.as_str())
            },
            CsmsError::ConnectorNotAvailable { charge_point_id, connector_id } => {
                let n = u64_to_text(*connector_id as u64);
                concat4("Connector not available: ", charge_point_id.as_str(), "/", n.as_str())
            },
            CsmsError::Internal { message } => concat2("Internal error: ", message.as_str()),
        }
    }

    /// The CSMS error a protocol error becomes: database, validation and
    /// transport errors keep their message; every other error becomes an
    /// internal error carrying its display text.
    pub fn from_ocpp(err: OcppError) -> (r: CsmsError)
        ensures
            match err {
                OcppError::Database { message } => r == CsmsError::Database { message },
                OcppError::ValidationError { message } => r == CsmsError::Validation { message },
                OcppError::Transport { message } => r == CsmsError::Transport { message },
                _ => r matches CsmsError::Internal { message } && message@ == err.display(),
            },
    {
        match err {
            OcppError::Database { message } => CsmsError::Database { message },
            OcppError::ValidationError { message } => CsmsError::Validation { message },
            OcppError::Transport { message } => CsmsError::Transport { message },
            _ => CsmsError::Internal { message: err.to_string() },
        }
    }

    /// The CSMS error a transport error becomes: a transport error carrying
    /// its display text.
    pub fn from_transport(err: TransportError) -> (r: CsmsError)
        ensures
            r matches CsmsError::Transport { message } && message@ == err.display(),
    {
        CsmsError::Transport { message: err.to_string() }
    }
}

impl From<OcppError> for CsmsError {
    fn from(err: OcppError) -> CsmsError {
        CsmsError::from_ocpp(err)
    }
}

impl vstd::std_specs::convert::FromSpecImpl<OcppError> for CsmsError {
    open spec fn obeys_from_spec() -> bool {
        false
    }

    open spec fn from_spec(v: OcppError) -> CsmsError {
        arbitrary()
    }
}

impl From<TransportError> for CsmsError {
    fn from(err: TransportError) -> CsmsError {
        CsmsError::from_transport(err)
    }
}

impl vstd::std_specs::convert::FromSpecImpl<TransportError> for CsmsError {
    open spec fn obeys_from_spec() -> bool {
        false
    }

    open spec fn from_spec(v: TransportError) -> CsmsError {
        arbitrary()
    }
}

} // verus!
