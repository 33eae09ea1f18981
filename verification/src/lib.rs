//! A verified ZK-rollup core: an incremental SHA-256 engine, composite
//! hashing utilities (double hashing and Merkle-tree reduction), and a
//! ledger of accounts whose transfers are gated on signatures and nonces.

pub mod crypto;
pub mod rollup;
pub mod tee;
