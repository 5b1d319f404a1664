//! A two-asset constant-product automated market maker.
//!
//! The crate holds the exchange's decision logic: constant-product pricing,
//! the one-time metadata bootstrap, the settlement rules for inbound
//! deposits, and the codec for results delivered by remote ledger calls.
//! Dispatching the remote calls themselves is left to the embedding host.

pub mod codec;
pub mod errors;
pub mod exchange;
pub mod pricing;
