//! The game ledger: one aggregate record per account, keyed by address.
//!
//! [`InDance`] holds every account's state and exposes the externally
//! callable operations. Each operation takes the acting account's address
//! explicitly, together with the current time and, where payment is
//! involved, the account's token balance; it returns the mint/burn the
//! external token ledger must apply. An account is created implicitly, with
//! zeroed defaults, on its first floor purchase.

use crate::account::{empty_account_view, spec_after_buy_dancer, spec_after_buy_floor,
    spec_after_claim, spec_buy_dancer_err, spec_buy_floor_burn, spec_buy_floor_err,
    spec_buy_floor_mint, spec_claim_err, spec_pending, AccountState, AccountView};
use crate::amount::{amount_bound, amount_checked_add, amount_value, Amount};
use crate::config::{scaled, tier_price_spec, SLOTS_PER_FLOOR};
use crate::LedgerError;
use vstd::prelude::*;

verus! {

/// A 160-bit account address, as plain values: four high bytes and sixteen
/// low bytes.
#[derive(Clone, Copy, Debug, PartialEq, Eq, Structural)]
pub struct Address {
    pub hi: u32,
    pub lo: u128,
}

/// One account's record: its address and its state.
pub struct AccountRecord {
    pub addr: Address,
    pub state: AccountState,
}

/// The whole game ledger.
pub struct InDance {
    pub accounts: Vec<AccountRecord>,
}

/// Why reading the game dashboard fails, if it does: it needs a floor, a
/// sane clock, and the balance-plus-pending sum to fit.
pub open spec fn spec_game_data_err(v: AccountView, now: u64, balance: nat) -> Option<
    LedgerError,
> {
    if v.floors.len() == 0 {
        Some(LedgerError::NoFloor)
    } else if spec_claim_err(v, now) is Some {
        spec_claim_err(v, now)
    } else if balance + spec_pending(v, now) >= amount_bound() {
        Some(LedgerError::Overflow)
    } else {
        None
    }
}

impl InDance {
    /// Well-formed ledger: one record per address, each account well formed.
    pub open spec fn wf(self) -> bool {
        &&& forall|i: int, j: int|
            0 <= i < j < self.accounts@.len() ==> (#[trigger] self.accounts@[i].addr)
                != (#[trigger] self.accounts@[j].addr)
        &&& forall|i: int|
            0 <= i < self.accounts@.len() ==> (#[trigger] self.accounts@[i].state).wf()
    }

    /// Whether the address has prior state.
    pub open spec fn has_account(self, a: Address) -> bool {
        exists|i: int| 0 <= i < self.accounts@.len() && (#[trigger] self.accounts@[i].addr) == a
    }

    /// Index of the address's record.
    pub open spec fn account_index(self, a: Address) -> int {
        choose|i: int| 0 <= i < self.accounts@.len() && (#[trigger] self.accounts@[i].addr) == a
    }

    /// The account's model; zeroed defaults before any prior state.
    pub open spec fn account_view(self, a: Address) -> AccountView {
        if self.has_account(a) {
            self.accounts@[self.account_index(a)].state@
        } else {
            empty_account_view()
        }
    }

    /// A record at index `i` for the address pins down the spec-level index
    /// and view.
    proof fn lemma_account_at(self, a: Address, i: int)
        requires
            self.wf(),
            0 <= i < self.accounts@.len(),
            self.accounts@[i].addr == a,
        ensures
            self.has_account(a),
            self.account_index(a) == i,
            self.account_view(a) == self.accounts@[i].state@,
    {
        assert(self.has_account(a));
        let j = self.account_index(a);
        if i < j {
            assert(self.accounts@[i].addr != self.accounts@[j].addr);
        } else if j < i {
            assert(self.accounts@[j].addr != self.accounts@[i].addr);
        }
    }

    /// A fresh ledger with no accounts.
    pub fn new() -> (r: InDance)
        ensures
            r.wf(),
            forall|a: Address| #[trigger] r.account_view(a) == empty_account_view(),
            forall|a: Address| !(#[trigger] r.has_account(a)),
    {
        InDance { accounts: Vec::new() }
    }

    /// Index of the address's record, if any.
    fn find_account(&self, user: Address) -> (r: Option<usize>)
        ensures
            (match r {
                Some(i) => i < self.accounts@.len() && self.accounts@[i as int].addr == user,
                None => !self.has_account(user),
            }),
    {
        let mut i: usize = 0;
        let n = self.accounts.len();
        while i < n
            invariant
                i <= n,
                n == self.accounts@.len(),
                forall|j: int| 0 <= j < i ==> (#[trigger] self.accounts@[j].addr) != user,
            decreases n - i,
        {
            if self.accounts[i].addr == user {
                return Some(i);
            }
            i = i + 1;
        }
        None
    }

    /// Replacing one record in place, address kept, preserves every other
    /// account's view.
    proof fn lemma_update_frame(pre: InDance, post: InDance, i: int, user: Address)
        requires
            pre.wf(),
            0 <= i < pre.accounts@.len(),
            pre.accounts@[i].addr == user,
            post.accounts@.len() == pre.accounts@.len(),
            post.accounts@[i].addr == user,
            post.accounts@[i].state.wf(),
            forall|j: int|
                0 <= j < pre.accounts@.len() && j != i ==> #[trigger] post.accounts@[j]
                    == pre.accounts@[j],
        ensures
            post.wf(),
            pre.account_view(user) == pre.accounts@[i].state@,
            post.account_view(user) == post.accounts@[i].state@,
            forall|b: Address|
                b != user ==> #[trigger] post.account_view(b) == pre.account_view(b),
    {
        assert forall|p: int, q: int| 0 <= p < q < post.accounts@.len() implies (
        #[trigger] post.accounts@[p].addr) != (#[trigger] post.accounts@[q].addr) by {
            assert(pre.accounts@[p].addr != pre.accounts@[q].addr);
        }
        pre.lemma_account_at(user, i);
        post.lemma_account_at(user, i);
        assert forall|b: Address| b != user implies #[trigger] post.account_view(b)
            == pre.account_view(b) by {
            if pre.has_account(b) {
                let j = pre.account_index(b);
                assert(pre.accounts@[j].addr == b);
                assert(j != i);
                post.lemma_account_at(b, j);
            } else if post.has_account(b) {
                let j = post.account_index(b);
                assert(post.accounts@[j].addr == b);
                assert(j != i);
                assert(pre.accounts@[j].addr == b);
            }
        }
    }

    /// Appending a record for a new address preserves every other account's
    /// view.
    proof fn lemma_append_frame(pre: InDance, post: InDance, user: Address)
        requires
            pre.wf(),
            !pre.has_account(user),
            post.accounts@.len() == pre.accounts@.len() + 1,
            post.accounts@.last().addr == user,
            post.accounts@.last().state.wf(),
            forall|j: int|
                0 <= j < pre.accounts@.len() ==> #[trigger] post.accounts@[j]
                    == pre.accounts@[j],
        ensures
            post.wf(),
            pre.account_view(user) == empty_account_view(),
            post.account_view(user) == post.accounts@.last().state@,
            forall|b: Address|
                b != user ==> #[trigger] post.account_view(b) == pre.account_view(b),
    {
        let n = pre.accounts@.len() as int;
        assert forall|p: int, q: int| 0 <= p < q < post.accounts@.len() implies (
        #[trigger] post.accounts@[p].addr) != (#[trigger] post.accounts@[q].addr) by {
            if q < n {
                assert(pre.accounts@[p].addr != pre.accounts@[q].addr);
            } else {
                assert(pre.accounts@[p].addr != user);
            }
        }
        post.lemma_account_at(user, n);
        assert forall|b: Address| b != user implies #[trigger] post.account_view(b)
            == pre.account_view(b) by {
            if pre.has_account(b) {
                let j = pre.account_index(b);
                assert(pre.accounts@[j].addr == b);
                post.lemma_account_at(b, j);
            } else if post.has_account(b) {
                let j = post.account_index(b);
                assert(post.accounts@[j].addr == b);
                assert(j != n);
                assert(pre.accounts@[j].addr == b);
            }
        }
    }

    /// The reward claimable by `user` at time `now`. Read-only.
    pub fn get_claimable(&self, user: Address, now: u64) -> (r: Result<Amount, LedgerError>)
        requires
            self.wf(),
        ensures
            (match r {
                Ok(a) => spec_claim_err(self.account_view(user), now) is None && amount_value(a)
                    == spec_pending(self.account_view(user), now),
                Err(e) => spec_claim_err(self.account_view(user), now) == Some(e),
            }),
    {
        match self.find_account(user) {
            Some(i) => {
                proof {
                    self.lemma_account_at(user, i as int);
                }
                self.accounts[i].state.peek_claimable(now)
            },
            None => Ok(Amount::zero()),
        }
    }

    /// Realizes `user`'s pending reward at time `now` and returns the amount
    /// the token ledger must mint. A zero pending reward is a successful
    /// no-op returning zero.
    pub fn claim(&mut self, user: Address, now: u64) -> (r: Result<Amount, LedgerError>)
        requires
            old(self).wf(),
        ensures
            final(self).wf(),
            forall|b: Address|
                b != user ==> #[trigger] final(self).account_view(b) == old(self).account_view(b),
            (match r {
                Ok(a) => spec_claim_err(old(self).account_view(user), now) is None
                    && amount_value(a) == spec_pending(old(self).account_view(user), now)
                    && final(self).account_view(user) == spec_after_claim(
                    old(self).account_view(user),
                    now,
                ),
                Err(e) => spec_claim_err(old(self).account_view(user), now) == Some(e)
                    && final(self).account_view(user) == old(self).account_view(user),
            }),
    {
        match self.find_account(user) {
            Some(i) => {
                let ghost pre = *self;
                let mut rec = self.accounts.remove(i);
                let r = rec.state.realize(now);
                self.accounts.insert(i, rec);
                proof {
                    assert(self.accounts@ =~= pre.accounts@.update(i as int, self.accounts@[
                    i as int]));
                    InDance::lemma_update_frame(pre, *self, i as int, user);
                }
                r
            },
            None => Ok(Amount::zero()),
        }
    }

    /// Buys a floor for `user`, whose token balance is `balance`. The first
    /// floor is free and mints the starter bonus; every later one burns the
    /// floor price and needs the current last floor full.
    pub fn buy_floor(&mut self, user: Address, balance: &Amount) -> (r: Result<
        crate::TokenAction,
        LedgerError,
    >)
        requires
            old(self).wf(),
        ensures
            final(self).wf(),
            forall|b: Address|
                b != user ==> #[trigger] final(self).account_view(b) == old(self).account_view(b),
            (match r {
                Ok(action) => spec_buy_floor_err(
                    old(self).account_view(user),
                    amount_value(*balance),
                ) is None && final(self).account_view(user) == spec_after_buy_floor(
                    old(self).account_view(user),
                ) && (match action {
                    crate::TokenAction::Mint(a) => amount_value(a) == spec_buy_floor_mint(
                        old(self).account_view(user),
                    ) && spec_buy_floor_burn(old(self).account_view(user)) == 0,
                    crate::TokenAction::Burn(a) => amount_value(a) == spec_buy_floor_burn(
                        old(self).account_view(user),
                    ) && spec_buy_floor_mint(old(self).account_view(user)) == 0,
                }),
                Err(e) => spec_buy_floor_err(old(self).account_view(user), amount_value(*balance))
                    == Some(e) && final(self).account_view(user) == old(self).account_view(user),
            }),
    {
        match self.find_account(user) {
            Some(i) => {
                let ghost pre = *self;
                let mut rec = self.accounts.remove(i);
                let r = rec.state.buy_floor(balance);
                self.accounts.insert(i, rec);
                proof {
                    assert(self.accounts@ =~= pre.accounts@.update(i as int, self.accounts@[
                    i as int]));
                    InDance::lemma_update_frame(pre, *self, i as int, user);
                }
                r
            },
            None => {
                let ghost pre = *self;
                let mut st = AccountState::new();
                let r = st.buy_floor(balance);
                self.accounts.push(AccountRecord { addr: user, state: st });
                proof {
                    InDance::lemma_append_frame(pre, *self, user);
                }
                r
            },
        }
    }

    /// Buys a dancer of `tier` for `user`, whose token balance is `balance`,
    /// at time `now`: realizes the pending reward first, then burns the
    /// tier's price and fills the first empty slot of the last floor.
    pub fn buy_dancer(&mut self, user: Address, tier: u64, balance: &Amount, now: u64) -> (r:
        Result<crate::PurchaseReceipt, LedgerError>)
        requires
            old(self).wf(),
        ensures
            final(self).wf(),
            forall|b: Address|
                b != user ==> #[trigger] final(self).account_view(b) == old(self).account_view(b),
            (match r {
                Ok(receipt) => spec_buy_dancer_err(
                    old(self).account_view(user),
                    tier,
                    amount_value(*balance),
                    now,
                ) is None && final(self).account_view(user) == spec_after_buy_dancer(
                    old(self).account_view(user),
                    tier,
                    now,
                ) && amount_value(receipt.minted) == spec_pending(
                    old(self).account_view(user),
                    now,
                ) && amount_value(receipt.burned) == scaled(tier_price_spec(tier as nat)),
                Err(e) => spec_buy_dancer_err(
                    old(self).account_view(user),
                    tier,
                    amount_value(*balance),
                    now,
                ) == Some(e) && final(self).account_view(user) == old(self).account_view(user),
            }),
    {
        match self.find_account(user) {
            Some(i) => {
                let ghost pre = *self;
                let mut rec = self.accounts.remove(i);
                let r = rec.state.buy_dancer(tier, balance, now);
                self.accounts.insert(i, rec);
                proof {
                    assert(self.accounts@ =~= pre.accounts@.update(i as int, self.accounts@[
                    i as int]));
                    InDance::lemma_update_frame(pre, *self, i as int, user);
                }
                r
            },
            None => {
                // No prior state means no floor, so the purchase is refused
                // before anything could change; tier validation still comes
                // first.
                if tier == 0 || tier > crate::config::TIER_COUNT {
                    return Err(LedgerError::InvalidTier);
                }
                Err(LedgerError::NoFloor)
            },
        }
    }

    /// The nine `(level, params)` pairs of `user`'s floor `floor_id`.
    /// Read-only; fails with `NotFound` when no such floor exists.
    pub fn get_dance_floor(&self, user: Address, floor_id: u64) -> (r: Result<
        Vec<(u64, u64)>,
        LedgerError,
    >)
        requires
            self.wf(),
        ensures
            (match r {
                Ok(v) => floor_id < self.account_view(user).floors.len() && v@.len()
                    == SLOTS_PER_FLOOR && forall|i: int|
                    0 <= i < v@.len() ==> #[trigger] v@[i] == (
                    self.account_view(user).floors[floor_id as int].slots[i].level,
                    self.account_view(user).floors[floor_id as int].slots[i].params,
                ),
                Err(e) => e == LedgerError::NotFound && floor_id >= self.account_view(
                    user,
                ).floors.len(),
            }),
    {
        match self.find_account(user) {
            Some(i) => {
                proof {
                    self.lemma_account_at(user, i as int);
                }
                self.accounts[i].state.floor_snapshot(floor_id)
            },
            None => Err(LedgerError::NotFound),
        }
    }

    /// The dashboard for `user` at time `now` with token balance `balance`:
    /// the nine slots of the last floor, then the balance including the
    /// claimable reward, paired with the accrual rate.
    pub fn get_game_data(&self, user: Address, now: u64, balance: &Amount) -> (r: Result<
        Vec<(Amount, Amount)>,
        LedgerError,
    >)
        requires
            self.wf(),
        ensures
            (match r {
                Ok(v) => {
                    let av = self.account_view(user);
                    let lf = av.floors.last();
                    spec_game_data_err(av, now, amount_value(*balance)) is None && v@.len()
                        == SLOTS_PER_FLOOR + 1 && (forall|i: int|
                        0 <= i < SLOTS_PER_FLOOR ==> amount_value((#[trigger] v@[i]).0)
                            == lf.slots[i].level && amount_value(v@[i].1) == lf.slots[i].params)
                        && amount_value(v@[SLOTS_PER_FLOOR as int].0) == amount_value(*balance)
                        + spec_pending(av, now) && amount_value(v@[SLOTS_PER_FLOOR as int].1)
                        == av.rate
                },
                Err(e) => spec_game_data_err(self.account_view(user), now, amount_value(*balance))
                    == Some(e),
            }),
    {
        let i = match self.find_account(user) {
            Some(i) => i,
            None => {
                return Err(LedgerError::NoFloor);
            },
        };
        proof {
            self.lemma_account_at(user, i as int);
        }
        let st = &self.accounts[i].state;
        if st.floors.len() == 0 {
            return Err(LedgerError::NoFloor);
        }
        let last = (st.floors.len() - 1) as u64;
        let snapshot = match st.floor_snapshot(last) {
            Ok(v) => v,
            Err(_) => {
                return Err(LedgerError::NoFloor);
            },
        };
        let claimable = match st.peek_claimable(now) {
            Ok(a) => a,
            Err(e) => {
                return Err(e);
            },
        };
        let total = match amount_checked_add(balance, &claimable) {
            Some(a) => a,
            None => {
                return Err(LedgerError::Overflow);
            },
        };
        let mut out: Vec<(Amount, Amount)> = Vec::new();
        let mut j: usize = 0;
        while j < SLOTS_PER_FLOOR
            invariant
                j <= SLOTS_PER_FLOOR,
                snapshot@.len() == SLOTS_PER_FLOOR,
                out@.len() == j,
                forall|p: int|
                    0 <= p < j ==> amount_value((#[trigger] out@[p]).0) == snapshot@[p].0
                        && amount_value(out@[p].1) == snapshot@[p].1,
            decreases SLOTS_PER_FLOOR - j,
        {
            let (level, params) = snapshot[j];
            out.push((Amount::from_u64(level), Amount::from_u64(params)));
            j = j + 1;
        }
        out.push((total, st.accrual_rate));
        proof {
            assert(st@.floors.last() == self.account_view(user).floors.last());
        }
        Ok(out)
    }
}

} // verus!
