//! Laws of the ledger: account-level properties proved once and for all.

use crate::account::{account_view_wf, spec_after_buy_dancer, spec_after_buy_floor,
    spec_after_claim, spec_claim_err, spec_pending, AccountView};
use crate::config::{scaled, tier_rate_spec};
use crate::floor::{floor_view_wf, slots_rate, FloorView};
use vstd::prelude::*;

verus! {

/// Sum of the configured rate contributions of every dancer on the floors.
pub open spec fn floors_contribution(fs: Seq<FloorView>) -> nat
    decreases fs.len(),
{
    if fs.len() == 0 {
        0
    } else {
        (floors_contribution(fs.drop_last()) + slots_rate(fs.last().slots)) as nat
    }
}

proof fn lemma_floors_rate_eq_contribution(fs: Seq<FloorView>)
    requires
        forall|i: int| 0 <= i < fs.len() ==> floor_view_wf(#[trigger] fs[i]),
    ensures
        crate::account::floors_rate(fs) == floors_contribution(fs),
    decreases fs.len(),
{
    if fs.len() > 0 {
        let t = fs.drop_last();
        assert forall|i: int| 0 <= i < t.len() implies floor_view_wf(#[trigger] t[i]) by {
            assert(t[i] == fs[i]);
        }
        lemma_floors_rate_eq_contribution(t);
        assert(floor_view_wf(fs[fs.len() - 1]));
    }
}

/// In a well-formed account the accrual rate equals the sum of the
/// configured rate contributions of every dancer ever purchased: each
/// purchase adds exactly its tier's contribution and nothing ever removes
/// one.
pub proof fn lemma_rate_is_dancer_contribution(v: AccountView)
    requires
        account_view_wf(v),
    ensures
        v.rate == floors_contribution(v.floors),
{
    lemma_floors_rate_eq_contribution(v.floors);
}

/// The accrual rate never decreases: realizing rewards and buying floors
/// keep it, and a dancer purchase raises it by exactly the purchased tier's
/// configured contribution.
pub proof fn lemma_rate_monotonic(v: AccountView, tier: u64, now: u64)
    ensures
        spec_after_claim(v, now).rate == v.rate,
        spec_after_buy_floor(v).rate == v.rate,
        spec_after_buy_dancer(v, tier, now).rate == v.rate + scaled(tier_rate_spec(tier as nat)),
{
}

/// Slots within a floor always form a contiguous filled prefix: in a
/// well-formed account, if a slot is empty, every later slot on the same
/// floor is empty too.
pub proof fn lemma_slots_contiguous_prefix(v: AccountView, f: int, k: int, j: int)
    requires
        account_view_wf(v),
        0 <= f < v.floors.len(),
        0 <= k <= j < v.floors[f].slots.len(),
        v.floors[f].slots[k].level == 0,
    ensures
        v.floors[f].slots[j].level == 0,
{
    assert(floor_view_wf(v.floors[f]));
}

/// Reward realization mutates only the accrual clock: floors, slots and the
/// accrual rate are untouched.
pub proof fn lemma_realize_preserves_holdings(v: AccountView, now: u64)
    ensures
        spec_after_claim(v, now).floors == v.floors,
        spec_after_claim(v, now).rate == v.rate,
{
}

/// A dancer purchase settles past accrual before raising the rate:
/// immediately after the purchase nothing is pending, so the new rate
/// applies only to time after `now` and rate changes are never retroactive.
pub proof fn lemma_purchase_settles_accrual(v: AccountView, tier: u64, now: u64)
    ensures
        spec_pending(spec_after_buy_dancer(v, tier, now), now) == 0,
{
    let a = spec_after_buy_dancer(v, tier, now);
    if a.last_claimed_at != 0 {
        assert(now - a.last_claimed_at == 0);
    }
}

/// Realizing and immediately peeking again, with no time elapsed, yields
/// zero: after a realization at `now`, nothing is pending at `now`, and the
/// peek succeeds.
pub proof fn lemma_realize_then_peek_zero(v: AccountView, now: u64)
    ensures
        spec_pending(spec_after_claim(v, now), now) == 0,
        spec_claim_err(spec_after_claim(v, now), now) is None,
{
    let a = spec_after_claim(v, now);
    if v.last_claimed_at == 0 {
        assert(a.last_claimed_at == 0);
        assert(spec_pending(a, now) == 0);
    } else {
        assert(a.last_claimed_at == now);
        assert(now - a.last_claimed_at == 0);
        assert(spec_pending(a, now) == 0);
    }
}

} // verus!
