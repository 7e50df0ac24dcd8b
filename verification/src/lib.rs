//! Verified progression-and-accrual ledger for an idle dance game.
//!
//! Accounts own a growing list of dance floors; each floor has nine dancer
//! slots that fill strictly left to right. Every dancer adds a fixed,
//! tier-dependent contribution to the account's accrual rate, and rewards
//! accrue lazily as `elapsed time * accrual rate`. All monetary quantities
//! are 256-bit unsigned integers and every operation that would overflow
//! fails instead of wrapping.
//!
//! The fungible-token ledger and the clock are external collaborators: the
//! operations take the current time and the caller's token balance as
//! arguments and return the mint/burn action the token ledger must apply.

pub mod account;
pub mod amount;
pub mod config;
pub mod floor;
pub mod laws;
pub mod ledger;

use vstd::prelude::*;

verus! {

/// Machine-readable failure codes surfaced verbatim to callers.
#[derive(Clone, Copy, Debug, PartialEq, Eq, Structural)]
pub enum LedgerError {
    /// The requested account or floor has no prior state.
    NotFound,
    /// The clock ran backwards: current time is before `last_claimed_at`.
    InvalidTimestamp,
    /// A tier outside the configured tier table was requested.
    InvalidTier,
    /// A dancer purchase needs at least one floor.
    NoFloor,
    /// The last floor has all nine slots filled.
    FloorFull,
    /// A new floor needs the current last floor to be full.
    FloorNotFull,
    /// The account's token balance cannot cover the price.
    InsufficientFunds,
    /// 256-bit arithmetic would overflow.
    Overflow,
}

impl LedgerError {
    /// The short machine-readable code surfaced to callers.
    pub fn code(&self) -> (r: &'static str) {
        match self {
            LedgerError::NotFound => "NOF",
            LedgerError::InvalidTimestamp => "EBT",
            LedgerError::InvalidTier => "ZLVL",
            LedgerError::NoFloor => "NOFL",
            LedgerError::FloorFull => "FULL",
            LedgerError::FloorNotFull => "NOTF",
            LedgerError::InsufficientFunds => "NOMO",
            LedgerError::Overflow => "OVF",
        }
    }
}

/// What the external token ledger must do after a successful floor purchase.
#[derive(Clone, Copy, Debug, PartialEq, Eq, Structural)]
pub enum TokenAction {
    /// Mint the amount to the account.
    Mint(crate::amount::Amount),
    /// Burn the amount from the account's balance.
    Burn(crate::amount::Amount),
}

/// What the external token ledger must do after a successful dancer
/// purchase: mint the realized pending reward, then burn the price.
#[derive(Clone, Copy, Debug, PartialEq, Eq, Structural)]
pub struct PurchaseReceipt {
    /// The pending reward realized just before the purchase.
    pub minted: crate::amount::Amount,
    /// The price of the purchased tier.
    pub burned: crate::amount::Amount,
}

} // verus!
