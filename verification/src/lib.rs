//! Transactional core of a small value-distribution ("giveaway") contract.
//!
//! On receiving a payment the contract pays back a multiple of it, bounded
//! by the contract's balance and a configured cap, and never pays the same
//! address twice.  The host runtime (caller identity, balances, transfer
//! commits) is outside this crate: every entry point here is a pure function
//! from plain values to a new state and a requested action, or an error.

pub mod contract;
pub mod laws;
pub mod params;
pub mod types;
