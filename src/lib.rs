//! Commitment-record ledger: stores a 32-byte commitment, a nonce and an update
//! policy per private state, and lets foreign components assert its current value.

pub mod bytes;
pub mod consumer;
pub mod error;
pub mod hex;
pub mod laws;
pub mod policy;
pub mod state;
