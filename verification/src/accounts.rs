//! What the vault reads of the accounts that an operation is given.

use vstd::prelude::*;

verus! {

/// A token account: the number of tokens it holds.
#[derive(Clone, Copy, Debug, PartialEq, Eq, Structural)]
pub struct TokenAccount {
    pub amount: u64,
}

/// A token mint: the number of tokens in circulation.
#[derive(Clone, Copy, Debug, PartialEq, Eq, Structural)]
pub struct Mint {
    pub supply: u64,
}

/// The clock: the slot in which the operation runs.
#[derive(Clone, Copy, Debug, PartialEq, Eq, Structural)]
pub struct Clock {
    pub slot: u64,
}

} // verus!
