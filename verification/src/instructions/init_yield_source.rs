//! Attaching a lending market to a vault.

use vstd::prelude::*;
use crate::errors::ErrorCode;

verus! {

/// What an adapter does to attach its market to a vault.
pub trait YieldSourceInitializer {
    /// Records the market's accounts in the vault.
    fn initialize_yield_source(&mut self) -> (r: Result<(), ErrorCode>);
}

} // verus!
