//! Tests of the 256-bit amount type and the token scaling.

use in_dance::amount::Amount;
use in_dance::config::scaled_amount;

#[test]
fn zero_and_from_u64() {
    assert_eq!(Amount::zero(), Amount { l0: 0, l1: 0, l2: 0, l3: 0 });
    assert_eq!(Amount::from_u64(42), Amount { l0: 42, l1: 0, l2: 0, l3: 0 });
    assert!(Amount::zero().is_zero());
    assert!(!Amount::from_u64(1).is_zero());
    assert!(!Amount { l0: 0, l1: 0, l2: 0, l3: 1 }.is_zero());
}

#[test]
fn scaling_multiplies_by_ten_to_the_eighteenth() {
    assert_eq!(scaled_amount(0), Amount::zero());
    assert_eq!(scaled_amount(1), Amount::from_u64(1_000_000_000_000_000_000));
    // 100 * 10^18 = 10^20 crosses the first limb: 10^20 = 5 * 2^64 + l0.
    assert_eq!(
        scaled_amount(100),
        Amount { l0: 7_766_279_631_452_241_920, l1: 5, l2: 0, l3: 0 }
    );
    // Scaling is a real multiplication, not the argument handed back.
    assert_ne!(scaled_amount(100), Amount::from_u64(100));
}
