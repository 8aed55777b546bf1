//! The vault's operations. Each one decides from plain values what is to be
//! done with the accounts it was given; moving tokens and calling a market
//! is left to the caller.

pub mod deposit;
pub mod init_yield_source;
pub mod reconcile;
pub mod refresh;
