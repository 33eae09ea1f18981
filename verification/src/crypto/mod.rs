//! Cryptographic primitives: the SHA-256 engine, composite hashing,
//! the Ed25519 and AES front ends, and the accelerator interface they share.

pub mod aes;
pub mod ec;
pub mod hash;
pub mod riscv_ext;
pub mod sha256;
