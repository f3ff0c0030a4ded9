use market_settlement::number::{Decimal256, Uint256};
use std::str::FromStr;

fn decimal(text: &str) -> Decimal256 {
    let parsed = cosmwasm_bignumber::Decimal256::from_str(text).unwrap();
    Decimal256 { words: (parsed.0).0 }
}

#[test]
fn uint_from_u128_splits_into_two_words() {
    assert_eq!(Uint256::from_u128(0).words, [0, 0, 0, 0]);
    assert_eq!(Uint256::from_u128(1_000_000).words, [1_000_000, 0, 0, 0]);
    assert_eq!(Uint256::from_u128(1u128 << 64).words, [0, 1, 0, 0]);
    assert_eq!(Uint256::from_u128(u128::MAX).words, [u64::MAX, u64::MAX, 0, 0]);
    let reference = cosmwasm_bignumber::Uint256::from(0x1234_5678_9abc_def0_0fed_cba9_8765_4321u128);
    assert_eq!(
        Uint256::from_u128(0x1234_5678_9abc_def0_0fed_cba9_8765_4321u128).words,
        (reference.0).0
    );
}

#[test]
fn uint_to_u128_inverts_from_u128() {
    for value in [0u128, 1, 99, 1u128 << 64, (1u128 << 64) + 5, u128::MAX] {
        let wide = Uint256::from_u128(value);
        assert!(wide.fits_u128());
        assert_eq!(wide.to_u128(), value);
    }
}

#[test]
fn uint_fits_u128_looks_at_the_upper_words() {
    assert!(Uint256 { words: [7, 7, 0, 0] }.fits_u128());
    assert!(!Uint256 { words: [0, 0, 1, 0] }.fits_u128());
    assert!(!Uint256 { words: [0, 0, 0, 1] }.fits_u128());
    assert!(!Uint256::max_value().fits_u128());
}

#[test]
fn zero_and_is_zero_agree() {
    assert!(Uint256::zero().is_zero());
    assert!(Decimal256::zero().is_zero());
    assert!(!Decimal256::one().is_zero());
    assert!(!Uint256 { words: [0, 0, 0, 1] }.is_zero());
    assert!(!Decimal256 { words: [0, 1, 0, 0] }.is_zero());
    assert_eq!(Uint256::zero().words, (cosmwasm_bignumber::Uint256::zero().0).0);
}

#[test]
fn decimal_one_is_ten_to_the_eighteenth() {
    assert_eq!(Decimal256::one().words, [1_000_000_000_000_000_000, 0, 0, 0]);
    assert_eq!(Decimal256::one().words, (cosmwasm_bignumber::Decimal256::one().0).0);
    assert_eq!(Decimal256::one(), decimal("1"));
}

#[test]
fn greatest_values_match_the_arithmetic_crate() {
    assert_eq!(Uint256::max_value().words, (bigint::U256::MAX).0);
    assert_eq!(Decimal256::max_value().words, (cosmwasm_bignumber::Decimal256::MAX.0).0);
    let unit = cosmwasm_bignumber::Decimal256::DECIMAL_FRACTIONAL;
    let greatest_whole = bigint::U256::MAX / unit;
    assert_eq!(Uint256::max_whole().words, greatest_whole.0);
    assert_eq!(Decimal256::max_dividend().words, greatest_whole.0);
    assert_eq!(
        greatest_whole.to_string(),
        "115792089237316195423570985008687907853269984665640564039457"
    );
}

#[test]
fn new_ledger_is_empty() {
    let state = market_settlement::state::State::new(1_234);
    assert!(state.total_liabilities.is_zero());
    assert!(state.total_reserves.is_zero());
    assert!(state.prev_aterra_supply.is_zero());
    assert_eq!(state.last_interest_updated, 1_234);
}

#[test]
fn duplicated_addresses_are_equal() {
    let human = market_settlement::address::HumanAddr { text: String::from("terra1pool") };
    assert_eq!(human.duplicate(), human);
    let canonical = market_settlement::address::CanonicalAddr { bytes: vec![0, 255, 7] };
    assert_eq!(canonical.duplicate(), canonical);
    let empty = market_settlement::address::CanonicalAddr { bytes: vec![] };
    assert_eq!(empty.duplicate(), empty);
}
