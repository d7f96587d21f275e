//! Ownership of all client accounts.

pub mod registry;

pub use registry::AccountRegistry;
