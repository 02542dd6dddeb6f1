//! OCPP 1.6J building blocks: message framing, validation, error taxonomies,
//! charge point state bookkeeping and the decision logic of the CLI simulator.

pub mod text;
pub mod context;
pub mod cp;
pub mod simulator;
pub mod conformance;
pub mod cp_error;
pub mod simulator_error;
pub mod types;
pub mod json;
pub mod ids;
pub mod time;
pub mod message;
pub mod client;
pub mod state;
pub mod v16j;
pub mod validation;
pub mod numbers;
pub mod config;
pub mod transport;
pub mod csms_error;
pub mod auth;
pub mod server;
pub mod scenarios;
pub mod cli;
pub mod connectors;
