//! End-to-end tests of the game ledger: floor and dancer purchases, reward
//! accrual, and every failure code.

use in_dance::account::AccountState;
use in_dance::amount::Amount;
use in_dance::config::{scaled_amount, InDanceParams};
use in_dance::ledger::{Address, InDance};
use in_dance::{LedgerError, PurchaseReceipt, TokenAction};

fn addr(n: u32) -> Address {
    Address { hi: n, lo: n as u128 }
}

/// Buys a floor and fills its nine slots with tier-1 dancers at time `t`.
fn fill_first_floor(game: &mut InDance, user: Address, t: u64) {
    game.buy_floor(user, &Amount::zero()).unwrap();
    for _ in 0..9 {
        game.buy_dancer(user, 1, &scaled_amount(10), t).unwrap();
    }
}

#[test]
fn first_floor_is_free_and_mints_starter_bonus() {
    let mut game = InDance::new();
    let a = addr(1);
    let action = game.buy_floor(a, &Amount::zero()).unwrap();
    assert_eq!(action, TokenAction::Mint(scaled_amount(10)));
    // Exactly one floor exists, fully empty.
    let floor = game.get_dance_floor(a, 0).unwrap();
    assert_eq!(floor, vec![(0, 0); 9]);
    assert_eq!(game.get_dance_floor(a, 1), Err(LedgerError::NotFound));
}

#[test]
fn second_floor_burns_price_when_first_is_full() {
    let mut game = InDance::new();
    let a = addr(2);
    fill_first_floor(&mut game, a, 1000);
    let action = game.buy_floor(a, &scaled_amount(100)).unwrap();
    assert_eq!(action, TokenAction::Burn(scaled_amount(100)));
    let second = game.get_dance_floor(a, 1).unwrap();
    assert_eq!(second, vec![(0, 0); 9]);
}

#[test]
fn floor_purchase_fails_when_last_floor_not_full() {
    let mut game = InDance::new();
    let a = addr(3);
    game.buy_floor(a, &Amount::zero()).unwrap();
    game.buy_dancer(a, 1, &scaled_amount(10), 5).unwrap();
    let r = game.buy_floor(a, &scaled_amount(100));
    assert_eq!(r, Err(LedgerError::FloorNotFull));
    // No floor was appended.
    assert_eq!(game.get_dance_floor(a, 1), Err(LedgerError::NotFound));
}

#[test]
fn floor_purchase_fails_without_funds() {
    let mut game = InDance::new();
    let a = addr(4);
    fill_first_floor(&mut game, a, 1);
    assert_eq!(game.buy_floor(a, &scaled_amount(99)), Err(LedgerError::InsufficientFunds));
    // One base unit short of the price still fails; the exact price passes.
    let price_minus_one = Amount { l0: 7_766_279_631_452_241_919, l1: 5, l2: 0, l3: 0 };
    assert_eq!(game.buy_floor(a, &price_minus_one), Err(LedgerError::InsufficientFunds));
    assert!(game.buy_floor(a, &scaled_amount(100)).is_ok());
}

#[test]
fn insufficient_funds_reported_before_floor_not_full() {
    let mut game = InDance::new();
    let a = addr(5);
    game.buy_floor(a, &Amount::zero()).unwrap();
    // The floor is not full and the balance is short: the payment fails first.
    assert_eq!(game.buy_floor(a, &Amount::zero()), Err(LedgerError::InsufficientFunds));
}

#[test]
fn dancer_purchase_fills_slots_left_to_right() {
    let mut game = InDance::new();
    let a = addr(6);
    game.buy_floor(a, &Amount::zero()).unwrap();
    game.buy_dancer(a, 1, &scaled_amount(10), 70).unwrap();
    game.buy_dancer(a, 2, &scaled_amount(600), 71).unwrap();
    game.buy_dancer(a, 3, &scaled_amount(9000), 72).unwrap();
    let floor = game.get_dance_floor(a, 0).unwrap();
    assert_eq!(floor[0], (1, 70));
    assert_eq!(floor[1], (2, 71));
    assert_eq!(floor[2], (3, 72));
    // Everything after the filled prefix is empty.
    assert_eq!(&floor[3..], &[(0, 0); 6]);
}

#[test]
fn dancer_purchase_needs_a_floor() {
    let mut game = InDance::new();
    let a = addr(7);
    assert_eq!(game.buy_dancer(a, 1, &scaled_amount(10), 1), Err(LedgerError::NoFloor));
}

#[test]
fn dancer_purchase_rejects_invalid_tiers() {
    let mut game = InDance::new();
    let a = addr(8);
    game.buy_floor(a, &Amount::zero()).unwrap();
    let before = game.get_dance_floor(a, 0).unwrap();
    assert_eq!(game.buy_dancer(a, 0, &scaled_amount(10), 1), Err(LedgerError::InvalidTier));
    assert_eq!(game.buy_dancer(a, 6, &scaled_amount(10), 1), Err(LedgerError::InvalidTier));
    // Slots and claimable reward are unchanged in both cases.
    assert_eq!(game.get_dance_floor(a, 0).unwrap(), before);
    assert_eq!(game.get_claimable(a, 1).unwrap(), Amount::zero());
}

#[test]
fn dancer_purchase_fails_without_funds() {
    let mut game = InDance::new();
    let a = addr(9);
    game.buy_floor(a, &Amount::zero()).unwrap();
    assert_eq!(game.buy_dancer(a, 1, &scaled_amount(9), 1), Err(LedgerError::InsufficientFunds));
    assert_eq!(game.get_dance_floor(a, 0).unwrap(), vec![(0, 0); 9]);
}

#[test]
fn dancer_purchase_on_full_floor_fails_and_changes_nothing() {
    let mut game = InDance::new();
    let a = addr(10);
    fill_first_floor(&mut game, a, 50);
    let floor_before = game.get_dance_floor(a, 0).unwrap();
    let rate_before = game.get_game_data(a, 50, &Amount::zero()).unwrap()[9].1;
    assert_eq!(game.buy_dancer(a, 1, &scaled_amount(10), 50), Err(LedgerError::FloorFull));
    assert_eq!(game.get_dance_floor(a, 0).unwrap(), floor_before);
    assert_eq!(game.get_game_data(a, 50, &Amount::zero()).unwrap()[9].1, rate_before);
    assert_eq!(game.get_claimable(a, 50).unwrap(), Amount::zero());
}

#[test]
fn claim_pays_elapsed_times_rate() {
    let mut game = InDance::new();
    let a = addr(11);
    game.buy_floor(a, &Amount::zero()).unwrap();
    // One tier-2 dancer: 5 whole tokens per second; the purchase starts the
    // accrual clock.
    game.buy_dancer(a, 2, &scaled_amount(600), 1000).unwrap();
    assert_eq!(game.get_claimable(a, 1100).unwrap(), scaled_amount(500));
    let minted = game.claim(a, 1100).unwrap();
    assert_eq!(minted, scaled_amount(500));
    // The clock moved to the claim time: nothing further is pending.
    assert_eq!(game.get_claimable(a, 1100).unwrap(), Amount::zero());
}

#[test]
fn claim_with_plain_rate_five_pays_five_hundred() {
    // An account with accrual_rate 5 and last_claimed_at t, read at t + 100,
    // has exactly 500 pending.
    let st = AccountState {
        floors: Vec::new(),
        floor_count: 0,
        last_claimed_at: 7,
        accrual_rate: Amount::from_u64(5),
    };
    assert_eq!(st.peek_claimable(107).unwrap(), Amount::from_u64(500));
}

#[test]
fn claim_before_first_dancer_is_zero() {
    let mut game = InDance::new();
    let a = addr(12);
    assert_eq!(game.claim(a, 10).unwrap(), Amount::zero());
    game.buy_floor(a, &Amount::zero()).unwrap();
    assert_eq!(game.claim(a, 20).unwrap(), Amount::zero());
}

#[test]
fn claim_rejects_a_clock_running_backwards() {
    let mut game = InDance::new();
    let a = addr(13);
    game.buy_floor(a, &Amount::zero()).unwrap();
    game.buy_dancer(a, 1, &scaled_amount(10), 100).unwrap();
    assert_eq!(game.claim(a, 99), Err(LedgerError::InvalidTimestamp));
    assert_eq!(game.get_claimable(a, 99), Err(LedgerError::InvalidTimestamp));
}

#[test]
fn pending_reward_overflow_is_reported() {
    let st = AccountState {
        floors: Vec::new(),
        floor_count: 0,
        last_claimed_at: 1,
        accrual_rate: Amount { l0: 0, l1: 0, l2: 0, l3: u64::MAX },
    };
    assert_eq!(st.peek_claimable(u64::MAX), Err(LedgerError::Overflow));
}

#[test]
fn pending_reward_counts_toward_a_dancer_purchase() {
    let mut game = InDance::new();
    let a = addr(14);
    game.buy_floor(a, &Amount::zero()).unwrap();
    game.buy_dancer(a, 1, &scaled_amount(10), 1000).unwrap();
    // Ten seconds at 1 token/s cover the tier-1 price with no balance at all.
    let receipt = game.buy_dancer(a, 1, &Amount::zero(), 1010).unwrap();
    assert_eq!(
        receipt,
        PurchaseReceipt { minted: scaled_amount(10), burned: scaled_amount(10) }
    );
    // The realization settled the clock.
    assert_eq!(game.get_claimable(a, 1010).unwrap(), Amount::zero());
}

#[test]
fn game_data_reports_slots_balance_and_rate() {
    let mut game = InDance::new();
    let a = addr(15);
    game.buy_floor(a, &Amount::zero()).unwrap();
    game.buy_dancer(a, 1, &scaled_amount(10), 300).unwrap();
    game.buy_dancer(a, 2, &scaled_amount(600), 300).unwrap();
    // Rate is 6 tokens/s; ten seconds later 60 tokens are pending.
    let data = game.get_game_data(a, 310, &Amount::zero()).unwrap();
    assert_eq!(data.len(), 10);
    assert_eq!(data[0], (Amount::from_u64(1), Amount::from_u64(300)));
    assert_eq!(data[1], (Amount::from_u64(2), Amount::from_u64(300)));
    assert_eq!(data[2], (Amount::zero(), Amount::zero()));
    assert_eq!(data[9], (scaled_amount(60), scaled_amount(6)));
}

#[test]
fn game_data_needs_a_floor() {
    let mut game = InDance::new();
    let a = addr(16);
    assert_eq!(game.get_game_data(a, 1, &Amount::zero()), Err(LedgerError::NoFloor));
}

#[test]
fn accounts_are_independent() {
    let mut game = InDance::new();
    let a = addr(17);
    let b = addr(18);
    game.buy_floor(a, &Amount::zero()).unwrap();
    game.buy_floor(b, &Amount::zero()).unwrap();
    game.buy_dancer(a, 5, &scaled_amount(30000), 100).unwrap();
    // Account b saw none of it.
    assert_eq!(game.get_dance_floor(b, 0).unwrap(), vec![(0, 0); 9]);
    assert_eq!(game.get_claimable(b, 200).unwrap(), Amount::zero());
    // Account a accrues 30 tokens/s.
    assert_eq!(game.get_claimable(a, 200).unwrap(), scaled_amount(3000));
}

#[test]
fn every_tier_charges_its_configured_price() {
    let prices: [(u64, u64); 5] = [(1, 10), (2, 600), (3, 9000), (4, 19000), (5, 30000)];
    for (tier, price) in prices {
        let mut game = InDance::new();
        let a = addr(19);
        game.buy_floor(a, &Amount::zero()).unwrap();
        // One base unit below the price fails, the exact price succeeds.
        assert_eq!(
            game.buy_dancer(a, tier, &scaled_amount(price - 1), 1),
            Err(LedgerError::InsufficientFunds)
        );
        let receipt = game.buy_dancer(a, tier, &scaled_amount(price), 1).unwrap();
        assert_eq!(receipt.burned, scaled_amount(price));
    }
}

#[test]
fn error_codes_match_the_wire_format() {
    assert_eq!(LedgerError::NotFound.code(), "NOF");
    assert_eq!(LedgerError::InvalidTimestamp.code(), "EBT");
    assert_eq!(LedgerError::InvalidTier.code(), "ZLVL");
    assert_eq!(LedgerError::NoFloor.code(), "NOFL");
    assert_eq!(LedgerError::FloorFull.code(), "FULL");
    assert_eq!(LedgerError::FloorNotFull.code(), "NOTF");
    assert_eq!(LedgerError::InsufficientFunds.code(), "NOMO");
    assert_eq!(LedgerError::Overflow.code(), "OVF");
}

#[test]
fn token_parameters() {
    assert_eq!(InDanceParams::name(), "In Dance");
    assert_eq!(InDanceParams::symbol(), "IND");
    assert_eq!(InDanceParams::decimals(), 18);
}
