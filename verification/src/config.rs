//! Game configuration: slot capacity, the dancer tier table, prices and the
//! token scale.
//!
//! Whole-token quantities in the rules (prices, rate contributions, the
//! starter bonus) are scaled by `UNIT_SCALE` (the token has 18 decimals)
//! before they touch balances or rates.

use crate::amount::{amount_bound, amount_checked_mul, amount_value, Amount};
use vstd::prelude::*;

verus! {

/// Number of dancer slots on every floor.
pub const SLOTS_PER_FLOOR: usize = 9;

/// Number of configured dancer tiers.
pub const TIER_COUNT: u64 = 5;

/// Price of every floor after the first, in whole tokens.
pub const FLOOR_PRICE_UNITS: u64 = 100;

/// One-time bonus minted with an account's first (free) floor, in whole tokens.
pub const STARTER_BONUS_UNITS: u64 = 10;

/// Token base units per whole token: the reward token has 18 decimals.
pub const UNIT_SCALE: u64 = 1_000_000_000_000_000_000;

/// A whole-token quantity scaled to token base units.
pub open spec fn scaled(units: nat) -> nat {
    (units * UNIT_SCALE) as nat
}

/// A tier is valid when the tier table configures it.
pub open spec fn valid_tier(tier: nat) -> bool {
    1 <= tier <= TIER_COUNT
}

/// Accrual-rate contribution of a tier, in whole tokens per second.
pub open spec fn tier_rate_spec(tier: nat) -> nat {
    if tier == 1 {
        1
    } else if tier == 2 {
        5
    } else if tier == 3 {
        7
    } else if tier == 4 {
        20
    } else if tier == 5 {
        30
    } else {
        0
    }
}

/// Price of a tier, in whole tokens.
pub open spec fn tier_price_spec(tier: nat) -> nat {
    if tier == 1 {
        10
    } else if tier == 2 {
        600
    } else if tier == 3 {
        9000
    } else if tier == 4 {
        19000
    } else if tier == 5 {
        30000
    } else {
        0
    }
}

/// Accrual-rate contribution of a valid tier, in whole tokens per second.
pub fn tier_rate(tier: u64) -> (r: u64)
    requires
        valid_tier(tier as nat),
    ensures
        r == tier_rate_spec(tier as nat),
{
    if tier == 1 {
        1
    } else if tier == 2 {
        5
    } else if tier == 3 {
        7
    } else if tier == 4 {
        20
    } else {
        30
    }
}

/// Price of a valid tier, in whole tokens.
pub fn tier_price(tier: u64) -> (r: u64)
    requires
        valid_tier(tier as nat),
    ensures
        r == tier_price_spec(tier as nat),
{
    if tier == 1 {
        10
    } else if tier == 2 {
        600
    } else if tier == 3 {
        9000
    } else if tier == 4 {
        19000
    } else {
        30000
    }
}

/// Scales a whole-token quantity to token base units.
///
/// Never overflows: a 64-bit quantity times `UNIT_SCALE` stays far below
/// 2^256.
pub fn scaled_amount(units: u64) -> (r: Amount)
    ensures
        amount_value(r) == scaled(units as nat),
{
    let u = Amount::from_u64(units);
    let s = Amount::from_u64(UNIT_SCALE);
    let p = amount_checked_mul(&u, &s);
    proof {
        assert((units as nat) * (UNIT_SCALE as nat) < amount_bound()) by (nonlinear_arith)
            requires
                units <= 0xffff_ffff_ffff_ffffu64,
        ;
    }
    match p {
        Some(r) => r,
        None => Amount::zero(),
    }
}

/// Metadata of the fungible reward token that the game mints and burns.
///
/// The token ledger itself is an external collaborator; only its parameters
/// are fixed here.
pub struct InDanceParams;

impl InDanceParams {
    /// The reward token's name.
    pub fn name() -> (r: &'static str)
        ensures
            r@ == "In Dance"@,
    {
        "In Dance"
    }

    /// The reward token's symbol.
    pub fn symbol() -> (r: &'static str)
        ensures
            r@ == "IND"@,
    {
        "IND"
    }

    /// The reward token's decimal places; `UNIT_SCALE` is 10 to this power.
    pub fn decimals() -> (r: u8)
        ensures
            r == 18,
    {
        18
    }
}

} // verus!
