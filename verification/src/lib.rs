//! Allocation and reconciliation engine of a pooled vault that spreads
//! depositor funds over several lending markets.
//!
//! Every function in this crate is verified with Verus; the few items that
//! call into other crates are marked and documented where they stand.

pub mod accounts;
pub mod adapters;
pub mod asset_container;
pub mod errors;
pub mod instructions;
pub mod math;
pub mod rate;
pub mod reserves;
pub mod state;
