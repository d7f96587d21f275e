//! A small payment ledger: per-client accounts fed by a stream of deposit,
//! withdrawal, dispute, resolve and chargeback events, applied through a
//! bounded channel by a single consumer.

pub mod account;
pub mod assoc;
pub mod client;
pub mod error;
pub mod money;
pub mod telemetry;
pub mod transaction;
pub mod transport;
