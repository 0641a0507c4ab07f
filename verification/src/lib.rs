//! Privacy-preserving compliance core.
//!
//! For one account, three state machines keep the evidence off-chain and
//! unrevealed: the KYC state machine, the AML risk engine and the sanctions
//! screening engine. The compliance service folds their outcomes into one
//! expiring attestation and decides which compliance level an attestation
//! satisfies.
//!
//! Times are whole seconds since the Unix epoch; hashes are 64-bit values.

pub mod compliance;
pub mod config;
pub mod error;
pub mod types;

pub use error::{ComplianceError, Result};
