//! The rollup: ledger state, transfer transactions, and the proof system.

pub mod state;
pub mod transaction;
pub mod zk_proof;
