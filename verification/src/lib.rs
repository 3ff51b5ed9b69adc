//! A minimal single-process ledger engine: an append-only chain of blocks
//! secured by a proof-of-work puzzle, per-account balances and nonces,
//! a bounded pool of pending transfers, and longest-chain reconciliation
//! against peer nodes.

pub mod clock;
pub mod core_client;
pub mod domain;
pub mod errors;
pub mod hashing;
pub mod numerals;
pub mod pallets;
pub mod pow;
pub mod runtime;
