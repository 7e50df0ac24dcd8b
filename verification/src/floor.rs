//! Dance floors and dancer slots.
//!
//! A floor holds exactly [`SLOTS_PER_FLOOR`] dancer slots that fill strictly
//! left to right; a slot with `level == 0` is empty and never sits before a
//! filled one. Each floor also carries `base_rate`, its own accrual
//! contribution, kept equal to the sum of its dancers' contributions.

use crate::amount::{amount_value, Amount};
use crate::config::{scaled, tier_rate_spec, SLOTS_PER_FLOOR};
use vstd::prelude::*;

verus! {

/// One dancer slot: `level == 0` means empty, a positive level is the tier.
/// `params` is an auxiliary tag (the acquisition timestamp).
#[derive(Clone, Copy, Debug, PartialEq, Eq, Structural)]
pub struct Dancer {
    pub level: u64,
    pub params: u64,
}

/// A dance floor: nine dancer slots plus the floor-local accrual rate.
pub struct DanceFloor {
    pub dancers: Vec<Dancer>,
    pub base_rate: Amount,
}

/// Mathematical model of a floor: its slots and the value of its rate.
#[verifier::ext_equal]
pub struct FloorView {
    pub slots: Seq<Dancer>,
    pub rate: nat,
}

impl View for DanceFloor {
    type V = FloorView;

    open spec fn view(&self) -> FloorView {
        FloorView { slots: self.dancers@, rate: amount_value(self.base_rate) }
    }
}

/// Slots fill left to right: an empty slot is never followed by a filled one.
pub open spec fn contiguous(s: Seq<Dancer>) -> bool {
    forall|i: int, j: int|
        0 <= i <= j < s.len() && #[trigger] s[i].level == 0 ==> #[trigger] s[j].level == 0
}

/// Number of leading filled slots (the index of the first empty slot).
pub open spec fn fill_count(s: Seq<Dancer>) -> nat
    decreases s.len(),
{
    if s.len() == 0 || s[0].level == 0 {
        0
    } else {
        (1 + fill_count(s.drop_first())) as nat
    }
}

/// Accrual contribution of one slot: its tier's configured rate, scaled.
pub open spec fn slot_rate(d: Dancer) -> nat {
    if d.level > 0 {
        scaled(tier_rate_spec(d.level as nat))
    } else {
        0
    }
}

/// Sum of the slots' accrual contributions.
pub open spec fn slots_rate(s: Seq<Dancer>) -> nat
    decreases s.len(),
{
    if s.len() == 0 {
        0
    } else {
        (slots_rate(s.drop_last()) + slot_rate(s.last())) as nat
    }
}

/// A well-formed floor: nine slots, filled as a contiguous prefix, tiers in
/// the configured table, and the floor rate equal to its slots' sum.
pub open spec fn floor_view_wf(f: FloorView) -> bool {
    &&& f.slots.len() == SLOTS_PER_FLOOR
    &&& contiguous(f.slots)
    &&& forall|i: int|
        0 <= i < f.slots.len() ==> #[trigger] f.slots[i].level <= crate::config::TIER_COUNT
    &&& f.rate == slots_rate(f.slots)
}

/// A floor is full when every slot is filled.
pub open spec fn floor_full(f: FloorView) -> bool {
    fill_count(f.slots) == SLOTS_PER_FLOOR
}

/// A left-to-right scan that stops at the first empty slot finds exactly
/// `fill_count`.
pub proof fn lemma_fill_count_from_scan(s: Seq<Dancer>, k: int)
    requires
        0 <= k <= s.len(),
        forall|j: int| 0 <= j < k ==> #[trigger] s[j].level > 0,
        k < s.len() ==> s[k].level == 0,
    ensures
        fill_count(s) == k,
    decreases s.len(),
{
    if k == 0 {
    } else {
        assert(s[0].level > 0);
        let t = s.drop_first();
        assert forall|j: int| 0 <= j < k - 1 implies #[trigger] t[j].level > 0 by {
            assert(t[j] == s[j + 1]);
        }
        lemma_fill_count_from_scan(t, k - 1);
    }
}

/// Replacing one slot moves the slot sum by the difference of the two slots'
/// contributions.
pub proof fn lemma_slots_rate_update(s: Seq<Dancer>, k: int, d: Dancer)
    requires
        0 <= k < s.len(),
    ensures
        slots_rate(s.update(k, d)) + slot_rate(s[k]) == slots_rate(s) + slot_rate(d),
    decreases s.len(),
{
    let s2 = s.update(k, d);
    if k == s.len() - 1 {
        assert(s2.drop_last() =~= s.drop_last());
        assert(s2.last() == d);
    } else {
        assert(s2.drop_last() =~= s.drop_last().update(k, d));
        assert(s2.last() == s.last());
        lemma_slots_rate_update(s.drop_last(), k, d);
    }
}

/// A floor with no dancers contributes nothing.
pub proof fn lemma_slots_rate_all_empty(s: Seq<Dancer>)
    requires
        forall|j: int| 0 <= j < s.len() ==> #[trigger] s[j].level == 0,
    ensures
        slots_rate(s) == 0,
    decreases s.len(),
{
    if s.len() > 0 {
        lemma_slots_rate_all_empty(s.drop_last());
    }
}

/// A fresh, fully empty floor.
pub fn empty_floor() -> (f: DanceFloor)
    ensures
        floor_view_wf(f@),
        f@.rate == 0,
        fill_count(f@.slots) == 0,
        forall|i: int| 0 <= i < f@.slots.len() ==> #[trigger] f@.slots[i] == (Dancer {
            level: 0,
            params: 0,
        }),
{
    let mut dancers: Vec<Dancer> = Vec::new();
    let mut i: usize = 0;
    while i < SLOTS_PER_FLOOR
        invariant
            i <= SLOTS_PER_FLOOR,
            dancers@.len() == i,
            forall|j: int| 0 <= j < i ==> #[trigger] dancers@[j] == (Dancer { level: 0, params: 0 }),
        decreases SLOTS_PER_FLOOR - i,
    {
        dancers.push(Dancer { level: 0, params: 0 });
        i = i + 1;
    }
    proof {
        lemma_slots_rate_all_empty(dancers@);
        lemma_fill_count_from_scan(dancers@, 0);
    }
    DanceFloor { dancers, base_rate: Amount::zero() }
}

/// Index of the first empty slot on the floor, scanning left to right;
/// [`SLOTS_PER_FLOOR`] when the floor is full.
pub fn first_empty_slot(f: &DanceFloor) -> (k: usize)
    requires
        f@.slots.len() == SLOTS_PER_FLOOR,
    ensures
        k == fill_count(f@.slots),
        k <= SLOTS_PER_FLOOR,
        forall|j: int| 0 <= j < k ==> #[trigger] f@.slots[j].level > 0,
        k < SLOTS_PER_FLOOR ==> f@.slots[k as int].level == 0,
{
    let mut k: usize = 0;
    while k < SLOTS_PER_FLOOR && f.dancers[k].level > 0
        invariant
            f@.slots.len() == SLOTS_PER_FLOOR,
            k <= SLOTS_PER_FLOOR,
            forall|j: int| 0 <= j < k ==> #[trigger] f@.slots[j].level > 0,
        decreases SLOTS_PER_FLOOR - k,
    {
        k = k + 1;
    }
    proof {
        lemma_fill_count_from_scan(f@.slots, k as int);
    }
    k
}

} // verus!
