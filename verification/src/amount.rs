//! 256-bit unsigned amounts.
//!
//! Monetary quantities (prices, rates, rewards, balances) are 256-bit
//! unsigned integers. An [`Amount`] holds the four little-endian 64-bit
//! limbs as plain values, so specifications can speak of the exact
//! mathematical value; the checked arithmetic itself is done by
//! `alloy_primitives::U256`.

use vstd::prelude::*;

verus! {

/// A 256-bit unsigned integer, as four 64-bit limbs, least significant first.
#[derive(Clone, Copy, Debug, PartialEq, Eq, Structural)]
pub struct Amount {
    pub l0: u64,
    pub l1: u64,
    pub l2: u64,
    pub l3: u64,
}

/// The mathematical value of an [`Amount`].
pub open spec fn amount_value(a: Amount) -> nat {
    (a.l0
        + a.l1 * 0x1_0000_0000_0000_0000nat
        + a.l2 * 0x1_0000_0000_0000_0000_0000_0000_0000_0000nat
        + a.l3 * 0x1_0000_0000_0000_0000_0000_0000_0000_0000_0000_0000_0000_0000nat) as nat
}

/// One more than the largest value an [`Amount`] can hold (2^256).
pub open spec fn amount_bound() -> nat {
    0x1_0000_0000_0000_0000_0000_0000_0000_0000_0000_0000_0000_0000_0000_0000_0000_0000nat
}

impl Amount {
    /// The zero amount.
    pub fn zero() -> (r: Amount)
        ensures
            amount_value(r) == 0,
    {
        Amount { l0: 0, l1: 0, l2: 0, l3: 0 }
    }

    /// Embeds a 64-bit value.
    pub fn from_u64(x: u64) -> (r: Amount)
        ensures
            amount_value(r) == x,
    {
        Amount { l0: x, l1: 0, l2: 0, l3: 0 }
    }

    /// Tests whether the amount is zero.
    pub fn is_zero(&self) -> (r: bool)
        ensures
            r == (amount_value(*self) == 0),
    {
        self.l0 == 0 && self.l1 == 0 && self.l2 == 0 && self.l3 == 0
    }
}

/// Relies on `alloy_primitives::U256::checked_add`: the 256-bit sum, or
/// `None` when the sum does not fit in 256 bits.
#[verifier::external_body]
pub(crate) fn amount_checked_add(a: &Amount, b: &Amount) -> (r: Option<Amount>)
    ensures
        r is Some <==> amount_value(*a) + amount_value(*b) < amount_bound(),
        r matches Some(c) ==> amount_value(c) == amount_value(*a) + amount_value(*b),
{
    let x = alloy_primitives::U256::from_limbs([a.l0, a.l1, a.l2, a.l3]);
    let y = alloy_primitives::U256::from_limbs([b.l0, b.l1, b.l2, b.l3]);
    match x.checked_add(y) {
        Some(z) => {
            let l = z.into_limbs();
            Some(Amount { l0: l[0], l1: l[1], l2: l[2], l3: l[3] })
        },
        None => None,
    }
}

/// Relies on `alloy_primitives::U256::checked_mul`: the 256-bit product, or
/// `None` when the product does not fit in 256 bits.
#[verifier::external_body]
pub(crate) fn amount_checked_mul(a: &Amount, b: &Amount) -> (r: Option<Amount>)
    ensures
        r is Some <==> amount_value(*a) * amount_value(*b) < amount_bound(),
        r matches Some(c) ==> amount_value(c) == amount_value(*a) * amount_value(*b),
{
    let x = alloy_primitives::U256::from_limbs([a.l0, a.l1, a.l2, a.l3]);
    let y = alloy_primitives::U256::from_limbs([b.l0, b.l1, b.l2, b.l3]);
    match x.checked_mul(y) {
        Some(z) => {
            let l = z.into_limbs();
            Some(Amount { l0: l[0], l1: l[1], l2: l[2], l3: l[3] })
        },
        None => None,
    }
}

/// Relies on `alloy_primitives::U256`'s ordering (`PartialOrd::lt`), which
/// compares the 256-bit values.
#[verifier::external_body]
pub(crate) fn amount_lt(a: &Amount, b: &Amount) -> (r: bool)
    ensures
        r == (amount_value(*a) < amount_value(*b)),
{
    let x = alloy_primitives::U256::from_limbs([a.l0, a.l1, a.l2, a.l3]);
    let y = alloy_primitives::U256::from_limbs([b.l0, b.l1, b.l2, b.l3]);
    x < y
}

} // verus!
