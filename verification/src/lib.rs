//! Domain-scoped error taxonomy with a wire-encoding layer.
//!
//! Business logic raises strongly typed, domain-qualified errors, attaches
//! structured metadata, and converts them losslessly to and from a transport
//! status object carrying ordered, machine-readable detail records.

pub mod common;
pub mod config;
pub mod context;
pub mod create_command;
pub mod dto;
pub mod error;
pub mod metadata;
pub mod reason;
pub mod render;
pub mod sign_up_command;
pub mod status;
