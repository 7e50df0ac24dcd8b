//! Per-account state and the accrual and progression engines.
//!
//! An account owns an append-only list of floors, an accrual rate equal to
//! the sum of its dancers' contributions, and the timestamp of its last
//! reward realization (`0` means "never claimed": the accrual clock starts
//! with the first dancer purchase).
//!
//! Every operation is a pure state transition: the clock and the account's
//! token balance come in as arguments, and the amounts the token ledger must
//! mint or burn go out in the result. On any failure the state is unchanged.

use crate::amount::{amount_bound, amount_checked_add, amount_checked_mul, amount_lt, amount_value,
    Amount};
use crate::config::{scaled, tier_price_spec, tier_rate_spec, valid_tier, scaled_amount, tier_price,
    tier_rate, FLOOR_PRICE_UNITS, SLOTS_PER_FLOOR, STARTER_BONUS_UNITS, TIER_COUNT};
use crate::floor::{empty_floor, fill_count, first_empty_slot, floor_full, floor_view_wf,
    lemma_slots_rate_update, slot_rate, slots_rate, DanceFloor, Dancer, FloorView};
use crate::LedgerError;
use vstd::prelude::*;

verus! {

/// The state of one account.
pub struct AccountState {
    /// Append-only list of floors; only the last may have empty slots.
    pub floors: Vec<DanceFloor>,
    /// Number of floors owned; equals `floors.len()`.
    pub floor_count: u64,
    /// Time of the last reward realization; `0` means never.
    pub last_claimed_at: u64,
    /// Reward units accrued per unit time.
    pub accrual_rate: Amount,
}

/// Mathematical model of an account.
#[verifier::ext_equal]
pub struct AccountView {
    pub floors: Seq<FloorView>,
    pub last_claimed_at: u64,
    pub rate: nat,
}

impl View for AccountState {
    type V = AccountView;

    open spec fn view(&self) -> AccountView {
        AccountView {
            floors: self.floors@.map_values(|f: DanceFloor| f@),
            last_claimed_at: self.last_claimed_at,
            rate: amount_value(self.accrual_rate),
        }
    }
}

/// The model of an account with no prior state.
pub open spec fn empty_account_view() -> AccountView {
    AccountView { floors: Seq::empty(), last_claimed_at: 0, rate: 0 }
}

/// Sum of the floors' accrual rates.
pub open spec fn floors_rate(fs: Seq<FloorView>) -> nat
    decreases fs.len(),
{
    if fs.len() == 0 {
        0
    } else {
        (floors_rate(fs.drop_last()) + fs.last().rate) as nat
    }
}

/// Appending a floor adds its rate to the sum.
pub proof fn lemma_floors_rate_push(fs: Seq<FloorView>, f: FloorView)
    ensures
        floors_rate(fs.push(f)) == floors_rate(fs) + f.rate,
{
    assert(fs.push(f).drop_last() =~= fs);
    assert(fs.push(f).last() == f);
}

/// Replacing the last floor moves the sum by the difference of the rates.
pub proof fn lemma_floors_rate_update_last(fs: Seq<FloorView>, f: FloorView)
    requires
        fs.len() > 0,
    ensures
        floors_rate(fs.update(fs.len() - 1, f)) + fs.last().rate == floors_rate(fs) + f.rate,
{
    let fs2 = fs.update(fs.len() - 1, f);
    assert(fs2.drop_last() =~= fs.drop_last());
    assert(fs2.last() == f);
}

/// No floor's rate exceeds the sum.
pub proof fn lemma_last_floor_rate_le(fs: Seq<FloorView>)
    requires
        fs.len() > 0,
    ensures
        fs.last().rate <= floors_rate(fs),
{
}

/// A well-formed account model: every floor well formed, every floor but the
/// last full, and the account rate equal to the sum of the floors' rates.
pub open spec fn account_view_wf(v: AccountView) -> bool {
    &&& forall|i: int| 0 <= i < v.floors.len() ==> floor_view_wf(#[trigger] v.floors[i])
    &&& forall|i: int| 0 <= i < v.floors.len() - 1 ==> floor_full(#[trigger] v.floors[i])
    &&& v.rate == floors_rate(v.floors)
}

impl AccountState {
    /// Well-formedness: the floor counter matches and the model is well formed.
    pub open spec fn wf(self) -> bool {
        &&& self.floor_count == self@.floors.len()
        &&& account_view_wf(self@)
    }

    /// An account with no prior state: zeroed defaults.
    pub fn new() -> (r: AccountState)
        ensures
            r.wf(),
            r@ == empty_account_view(),
    {
        let r = AccountState {
            floors: Vec::new(),
            floor_count: 0,
            last_claimed_at: 0,
            accrual_rate: Amount::zero(),
        };
        proof {
            assert(r@.floors =~= empty_account_view().floors);
            assert(r@ =~= empty_account_view());
        }
        r
    }
}

/// Reward pending since the last realization: elapsed time times the accrual
/// rate, and nothing before the first realization.
pub open spec fn spec_pending(v: AccountView, now: u64) -> nat {
    if v.last_claimed_at == 0 {
        0
    } else {
        ((now - v.last_claimed_at) * v.rate) as nat
    }
}

/// Why reading or realizing the pending reward fails, if it does: a clock
/// that ran backwards, or a 256-bit overflow of the accrued product.
pub open spec fn spec_claim_err(v: AccountView, now: u64) -> Option<LedgerError> {
    if v.last_claimed_at != 0 && now < v.last_claimed_at {
        Some(LedgerError::InvalidTimestamp)
    } else if spec_pending(v, now) >= amount_bound() {
        Some(LedgerError::Overflow)
    } else {
        None
    }
}

/// The account after a realization: the clock advances to `now` whenever it
/// was already running; floors and rate are untouched.
pub open spec fn spec_after_claim(v: AccountView, now: u64) -> AccountView {
    AccountView {
        last_claimed_at: if v.last_claimed_at == 0 {
            0
        } else {
            now
        },
        ..v
    }
}

/// Why a floor purchase fails, if it does: the first floor is free; later
/// ones need the price covered and the current last floor full.
pub open spec fn spec_buy_floor_err(v: AccountView, balance: nat) -> Option<LedgerError> {
    if v.floors.len() == 0 {
        None
    } else if balance < scaled(FLOOR_PRICE_UNITS as nat) {
        Some(LedgerError::InsufficientFunds)
    } else if !floor_full(v.floors.last()) {
        Some(LedgerError::FloorNotFull)
    } else {
        None
    }
}

/// The model of a fresh, fully empty floor.
pub open spec fn empty_floor_view() -> FloorView {
    FloorView {
        slots: Seq::new(SLOTS_PER_FLOOR as nat, |i: int| Dancer { level: 0, params: 0 }),
        rate: 0,
    }
}

/// The account after a floor purchase: one empty floor appended, nothing
/// else changed.
pub open spec fn spec_after_buy_floor(v: AccountView) -> AccountView {
    AccountView { floors: v.floors.push(empty_floor_view()), ..v }
}

/// What a floor purchase mints: the one-time starter bonus, on the first
/// floor only.
pub open spec fn spec_buy_floor_mint(v: AccountView) -> nat {
    if v.floors.len() == 0 {
        scaled(STARTER_BONUS_UNITS as nat)
    } else {
        0
    }
}

/// What a floor purchase burns: the floor price, on every floor but the
/// first.
pub open spec fn spec_buy_floor_burn(v: AccountView) -> nat {
    if v.floors.len() == 0 {
        0
    } else {
        scaled(FLOOR_PRICE_UNITS as nat)
    }
}

/// Why a dancer purchase fails, if it does, in the order the checks run:
/// tier validation, reward realization, floor existence, payment (out of the
/// balance plus the reward just realized), a free slot, and rate overflow.
pub open spec fn spec_buy_dancer_err(v: AccountView, tier: u64, balance: nat, now: u64) -> Option<
    LedgerError,
> {
    if !valid_tier(tier as nat) {
        Some(LedgerError::InvalidTier)
    } else if spec_claim_err(v, now) is Some {
        spec_claim_err(v, now)
    } else if v.floors.len() == 0 {
        Some(LedgerError::NoFloor)
    } else if balance + spec_pending(v, now) >= amount_bound() {
        Some(LedgerError::Overflow)
    } else if balance + spec_pending(v, now) < scaled(tier_price_spec(tier as nat)) {
        Some(LedgerError::InsufficientFunds)
    } else if floor_full(v.floors.last()) {
        Some(LedgerError::FloorFull)
    } else if v.rate + scaled(tier_rate_spec(tier as nat)) >= amount_bound() {
        Some(LedgerError::Overflow)
    } else {
        None
    }
}

/// The account after a dancer purchase: the first empty slot of the last
/// floor takes the dancer, the floor's and the account's rates grow by the
/// tier's contribution, and the accrual clock is set to `now`.
pub open spec fn spec_after_buy_dancer(v: AccountView, tier: u64, now: u64) -> AccountView {
    let lf = v.floors.last();
    let k = fill_count(lf.slots) as int;
    let nf = FloorView {
        slots: lf.slots.update(k, Dancer { level: tier, params: now }),
        rate: (lf.rate + scaled(tier_rate_spec(tier as nat))) as nat,
    };
    AccountView {
        floors: v.floors.update(v.floors.len() - 1, nf),
        last_claimed_at: now,
        rate: (v.rate + scaled(tier_rate_spec(tier as nat))) as nat,
    }
}

impl AccountState {
    /// The reward pending at `now`, without touching any state.
    pub fn peek_claimable(&self, now: u64) -> (r: Result<Amount, LedgerError>)
        ensures
            (match r {
                Ok(a) => spec_claim_err(self@, now) is None && amount_value(a) == spec_pending(
                    self@,
                    now,
                ),
                Err(e) => spec_claim_err(self@, now) == Some(e),
            }),
    {
        if self.last_claimed_at == 0 {
            return Ok(Amount::zero());
        }
        if now < self.last_claimed_at {
            return Err(LedgerError::InvalidTimestamp);
        }
        let elapsed = Amount::from_u64(now - self.last_claimed_at);
        match amount_checked_mul(&elapsed, &self.accrual_rate) {
            Some(a) => Ok(a),
            None => Err(LedgerError::Overflow),
        }
    }

    /// Realizes the pending reward: returns the amount the token ledger must
    /// mint and, whenever the accrual clock was already running, advances it
    /// to `now`. A zero pending reward is a successful no-op returning zero.
    pub fn realize(&mut self, now: u64) -> (r: Result<Amount, LedgerError>)
        requires
            old(self).wf(),
        ensures
            final(self).wf(),
            (match r {
                Ok(a) => spec_claim_err(old(self)@, now) is None && amount_value(a)
                    == spec_pending(old(self)@, now) && final(self)@ == spec_after_claim(
                    old(self)@,
                    now,
                ),
                Err(e) => spec_claim_err(old(self)@, now) == Some(e) && *final(self) == *old(
                    self,
                ),
            }),
    {
        let pending = match self.peek_claimable(now) {
            Ok(a) => a,
            Err(e) => {
                return Err(e);
            },
        };
        if self.last_claimed_at != 0 {
            self.last_claimed_at = now;
        }
        proof {
            assert(self@ =~= spec_after_claim(old(self)@, now));
        }
        Ok(pending)
    }

    /// Buys a floor. The first floor is free and mints the starter bonus;
    /// every later one burns the floor price and needs the current last
    /// floor to be full. On success an empty floor is appended.
    pub fn buy_floor(&mut self, balance: &Amount) -> (r: Result<crate::TokenAction, LedgerError>)
        requires
            old(self).wf(),
        ensures
            final(self).wf(),
            (match r {
                Ok(action) => spec_buy_floor_err(old(self)@, amount_value(*balance)) is None
                    && final(self)@ == spec_after_buy_floor(old(self)@) && (match action {
                    crate::TokenAction::Mint(a) => amount_value(a) == spec_buy_floor_mint(
                        old(self)@,
                    ) && spec_buy_floor_burn(old(self)@) == 0,
                    crate::TokenAction::Burn(a) => amount_value(a) == spec_buy_floor_burn(
                        old(self)@,
                    ) && spec_buy_floor_mint(old(self)@) == 0,
                }),
                Err(e) => spec_buy_floor_err(old(self)@, amount_value(*balance)) == Some(e)
                    && *final(self) == *old(self),
            }),
    {
        let action: crate::TokenAction;
        if self.floors.len() == 0 {
            action = crate::TokenAction::Mint(scaled_amount(STARTER_BONUS_UNITS));
        } else {
            let price = scaled_amount(FLOOR_PRICE_UNITS);
            if amount_lt(balance, &price) {
                return Err(LedgerError::InsufficientFunds);
            }
            let last = self.floors.len() - 1;
            let k = first_empty_slot(&self.floors[last]);
            if k < SLOTS_PER_FLOOR {
                proof {
                    assert(self@.floors[last as int] == self.floors@[last as int]@);
                }
                return Err(LedgerError::FloorNotFull);
            }
            action = crate::TokenAction::Burn(price);
        }
        let nf = empty_floor();
        self.floors.push(nf);
        self.floor_count = self.floors.len() as u64;
        proof {
            let pre = old(self)@;
            assert(nf@ =~= empty_floor_view());
            assert(self@.floors =~= pre.floors.push(empty_floor_view()));
            lemma_floors_rate_push(pre.floors, empty_floor_view());
            assert(self@ =~= spec_after_buy_floor(pre));
        }
        Ok(action)
    }

    /// Buys a dancer of the given tier: realizes the pending reward first
    /// (rates change only after past accrual is settled), then burns the
    /// price and fills the first empty slot of the last floor. Returns the
    /// amounts the token ledger must mint (the realized reward) and burn
    /// (the price). On any failure nothing at all changes.
    pub fn buy_dancer(&mut self, tier: u64, balance: &Amount, now: u64) -> (r: Result<
        crate::PurchaseReceipt,
        LedgerError,
    >)
        requires
            old(self).wf(),
        ensures
            final(self).wf(),
            (match r {
                Ok(receipt) => spec_buy_dancer_err(old(self)@, tier, amount_value(*balance), now)
                    is None && final(self)@ == spec_after_buy_dancer(old(self)@, tier, now)
                    && amount_value(receipt.minted) == spec_pending(old(self)@, now)
                    && amount_value(receipt.burned) == scaled(tier_price_spec(tier as nat)),
                Err(e) => spec_buy_dancer_err(old(self)@, tier, amount_value(*balance), now)
                    == Some(e) && *final(self) == *old(self),
            }),
    {
        if tier == 0 || tier > TIER_COUNT {
            return Err(LedgerError::InvalidTier);
        }
        let pending = match self.peek_claimable(now) {
            Ok(a) => a,
            Err(e) => {
                return Err(e);
            },
        };
        if self.floors.len() == 0 {
            return Err(LedgerError::NoFloor);
        }
        let effective = match amount_checked_add(balance, &pending) {
            Some(a) => a,
            None => {
                return Err(LedgerError::Overflow);
            },
        };
        let price = scaled_amount(tier_price(tier));
        if amount_lt(&effective, &price) {
            return Err(LedgerError::InsufficientFunds);
        }
        let last = self.floors.len() - 1;
        let k = first_empty_slot(&self.floors[last]);
        proof {
            assert(self@.floors[last as int] == self.floors@[last as int]@);
        }
        if k == SLOTS_PER_FLOOR {
            return Err(LedgerError::FloorFull);
        }
        let rate_delta = scaled_amount(tier_rate(tier));
        let new_rate = match amount_checked_add(&self.accrual_rate, &rate_delta) {
            Some(a) => a,
            None => {
                return Err(LedgerError::Overflow);
            },
        };
        proof {
            lemma_last_floor_rate_le(self@.floors);
        }
        let old_floor = self.floors.remove(last);
        let new_base = match amount_checked_add(&old_floor.base_rate, &rate_delta) {
            Some(a) => a,
            None => {
                // Unreachable: a floor's rate never exceeds the account rate,
                // which was just shown to take the increase.
                return Err(LedgerError::Overflow);
            },
        };
        let DanceFloor { dancers: mut dancers, base_rate: _ } = old_floor;
        dancers[k] = Dancer { level: tier, params: now };
        let nf = DanceFloor { dancers, base_rate: new_base };
        self.floors.push(nf);
        self.accrual_rate = new_rate;
        self.last_claimed_at = now;
        proof {
            let pre = old(self)@;
            let post = spec_after_buy_dancer(pre, tier, now);
            let lfv = pre.floors.last();
            assert(slot_rate(lfv.slots[k as int]) == 0);
            assert(slot_rate(Dancer { level: tier, params: now }) == scaled(
                tier_rate_spec(tier as nat),
            ));
            lemma_slots_rate_update(lfv.slots, k as int, Dancer { level: tier, params: now });
            assert(nf@ =~= post.floors.last());
            assert(self@.floors =~= post.floors);
            lemma_floors_rate_update_last(pre.floors, post.floors.last());
            assert(self@ =~= post);
            let nfv = post.floors.last();
            assert forall|a: int, b: int|
                0 <= a <= b < nfv.slots.len() && #[trigger] nfv.slots[a].level == 0 implies #[trigger] nfv.slots[b].level == 0 by {
                assert(a != k && lfv.slots[a].level == 0);
                assert(a > k);
                assert(b != k && nfv.slots[b] == lfv.slots[b]);
            }
            assert forall|i: int| 0 <= i < post.floors.len() implies floor_view_wf(
                #[trigger] post.floors[i],
            ) by {
                if i < post.floors.len() - 1 {
                    assert(post.floors[i] == pre.floors[i]);
                } else {
                    assert(post.floors[i] == nfv);
                }
            }
            assert forall|i: int| 0 <= i < post.floors.len() - 1 implies floor_full(
                #[trigger] post.floors[i],
            ) by {
                assert(post.floors[i] == pre.floors[i]);
            }
        }
        Ok(crate::PurchaseReceipt { minted: pending, burned: price })
    }

    /// The nine `(level, params)` pairs of the requested floor.
    pub fn floor_snapshot(&self, floor_id: u64) -> (r: Result<Vec<(u64, u64)>, LedgerError>)
        requires
            self.wf(),
        ensures
            (match r {
                Ok(v) => floor_id < self@.floors.len() && v@.len() == SLOTS_PER_FLOOR && forall|
                    i: int,
                |
                    0 <= i < v@.len() ==> #[trigger] v@[i] == (
                    self@.floors[floor_id as int].slots[i].level,
                    self@.floors[floor_id as int].slots[i].params,
                ),
                Err(e) => e == LedgerError::NotFound && floor_id >= self@.floors.len(),
            }),
    {
        if floor_id >= self.floors.len() as u64 {
            return Err(LedgerError::NotFound);
        }
        let f = &self.floors[floor_id as usize];
        proof {
            assert(self@.floors[floor_id as int] == self.floors@[floor_id as int]@);
        }
        let mut out: Vec<(u64, u64)> = Vec::new();
        let mut i: usize = 0;
        while i < SLOTS_PER_FLOOR
            invariant
                i <= SLOTS_PER_FLOOR,
                f@.slots.len() == SLOTS_PER_FLOOR,
                floor_view_wf(f@),
                out@.len() == i,
                forall|j: int|
                    0 <= j < i ==> #[trigger] out@[j] == (f@.slots[j].level, f@.slots[j].params),
            decreases SLOTS_PER_FLOOR - i,
        {
            let d = f.dancers[i];
            out.push((d.level, d.params));
            i = i + 1;
        }
        Ok(out)
    }
}

} // verus!
