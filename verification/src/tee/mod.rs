//! The trusted execution environment: enclaves, remote attestation, and
//! sealed key-value storage.

pub mod attestation;
pub mod enclave;
pub mod secure_storage;
