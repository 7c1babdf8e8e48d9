//! Attestation records: their validity status, error codes, and the
//! deterministic identifier derived from an attestation's contents.

pub mod id;
pub mod types;

pub use types::{Address, Attestation, AttestationStatus, Error};
