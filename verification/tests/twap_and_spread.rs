use normal_contracts::constants::FIVE_MINUTE;
use normal_contracts::constants::PRICE_PRECISION_U64;
use normal_contracts::math::calculate_new_twap;
use normal_contracts::math::calculate_weighted_average;
use normal_contracts::math::sanitize_new_price;
use normal_contracts::oracle::calculate_oracle_twap_price_spread_pct;
use normal_contracts::oracle::is_oracle_valid_for_action;
use normal_contracts::oracle_types::NormalAction;
use normal_contracts::oracle_types::OracleValidity;

#[test]
fn test_twap_initial_value() {
    let current_price = 1000_0000000u128;
    let current_ts = 1000u64;
    let last_twap = 0u128;
    let last_ts = 0u64;
    let period = FIVE_MINUTE as u64;
    let twap = calculate_new_twap(current_price, current_ts, last_twap, last_ts, period);
    assert_eq!(twap, current_price);
}

#[test]
fn test_twap_no_time_change() {
    let current_price = 1100_0000000u128;
    let last_twap = 1000_0000000u128;
    let current_ts = 1000u64;
    let last_ts = 1000u64;
    let period = FIVE_MINUTE as u64;
    let twap = calculate_new_twap(current_price, current_ts, last_twap, last_ts, period);
    assert_eq!(twap, last_twap);
}

#[test]
fn test_twap_partial_period() {
    let current_price = 1100_0000000u128;
    let last_twap = 1000_0000000u128;
    let current_ts = 1150u64;
    let last_ts = 1000u64;
    let period = 300u64;
    let twap = calculate_new_twap(current_price, current_ts, last_twap, last_ts, period);
    let expected = calculate_weighted_average(current_price, last_twap, 150, 150);
    assert_eq!(twap, expected);
    assert_eq!(twap, 1050_0000000);
}

#[test]
fn test_twap_full_period() {
    let current_price = 1100_0000000u128;
    let last_twap = 1000_0000000u128;
    let twap = calculate_new_twap(current_price, 1300u64, last_twap, 1000u64, 300u64);
    assert_eq!(twap, current_price);
}

#[test]
fn test_twap_beyond_period() {
    let current_price = 1100_0000000u128;
    let last_twap = 1000_0000000u128;
    let twap = calculate_new_twap(current_price, 2000u64, last_twap, 1000u64, 300u64);
    assert_eq!(twap, current_price);
}

#[test]
fn test_twap_price_smoothing() {
    let mut twap = 1000_0000000u128;
    let period = 300u64;
    let mut ts = 1000u64;

    let spike_price = 2000_0000000u128;
    ts += 30;
    twap = calculate_new_twap(spike_price, ts, twap, ts - 30, period);
    assert!(twap < spike_price);
    assert!(twap > 1000_0000000);

    let crash_price = 500_0000000u128;
    ts += 30;
    twap = calculate_new_twap(crash_price, ts, twap, ts - 30, period);
    assert!(twap > crash_price);
    assert!(twap < spike_price);
}

#[test]
fn twap_moves_a_fifth_of_the_way_per_minute() {
    let twap = calculate_new_twap(1500_0000000u128, 1060, 1000_0000000u128, 1000, 300);
    assert_eq!(twap, 1100_0000000);
    let clock_went_back = calculate_new_twap(1500_0000000u128, 900, 1000_0000000u128, 1000, 300);
    assert_eq!(clock_went_back, 1000_0000000);
}

#[test]
fn weighted_average_floors_and_handles_zero_weights() {
    assert_eq!(calculate_weighted_average(10, 20, 1, 2), 16);
    assert_eq!(calculate_weighted_average(10, 20, 0, 7), 20);
    assert_eq!(calculate_weighted_average(10, 20, 7, 0), 10);
}

#[test]
fn test_spread_calculation_equal_prices() {
    let spread = calculate_oracle_twap_price_spread_pct(1000_0000000u128, 1000_0000000u128).unwrap();
    assert_eq!(spread, 0);
}

#[test]
fn test_spread_calculation_reserve_higher() {
    let spread = calculate_oracle_twap_price_spread_pct(1100_0000000u128, 1000_0000000u128).unwrap();
    let expected = (100_0000000i64 * PRICE_PRECISION_U64 as i64) / 1100_0000000i64;
    assert_eq!(spread, expected);
    assert!(spread > 0);
}

#[test]
fn test_spread_calculation_reserve_lower() {
    let spread = calculate_oracle_twap_price_spread_pct(900_0000000u128, 1000_0000000u128).unwrap();
    let expected = (-100_0000000i64 * PRICE_PRECISION_U64 as i64) / 900_0000000i64;
    assert_eq!(spread, expected);
    assert!(spread < 0);
}

#[test]
fn test_spread_calculation_large_divergence() {
    let spread = calculate_oracle_twap_price_spread_pct(2000_0000000u128, 1000_0000000u128).unwrap();
    let expected = (1000_0000000i64 * PRICE_PRECISION_U64 as i64) / 2000_0000000i64;
    assert_eq!(spread, expected);
    assert_eq!(spread, PRICE_PRECISION_U64 as i64 / 2);
}

#[test]
fn test_spread_precision() {
    let spread = calculate_oracle_twap_price_spread_pct(1001_0000000u128, 1000_0000000u128).unwrap();
    assert!(spread > 0);
    assert!(spread < PRICE_PRECISION_U64 as i64 / 100);
}

#[test]
fn spread_overflow_is_a_math_error() {
    let huge = u64::MAX as u128;
    let result = calculate_oracle_twap_price_spread_pct(huge, 1);
    assert_eq!(result, Err(normal_contracts::oracle_types::OracleRegistryError::MathError));
}

#[test]
fn test_validity_for_swap() {
    assert!(is_oracle_valid_for_action(OracleValidity::Valid, Some(NormalAction::Swap)));
    assert!(!is_oracle_valid_for_action(OracleValidity::StaleForPool, Some(NormalAction::Swap)));
    assert!(!is_oracle_valid_for_action(OracleValidity::StaleForSwap, Some(NormalAction::Swap)));
}

#[test]
fn test_validity_for_liquidity() {
    assert!(is_oracle_valid_for_action(OracleValidity::Valid, Some(NormalAction::AddLiquidity)));
    assert!(is_oracle_valid_for_action(OracleValidity::StaleForPool, Some(NormalAction::AddLiquidity)));
    assert!(!is_oracle_valid_for_action(OracleValidity::StaleForSwap, Some(NormalAction::AddLiquidity)));
}

#[test]
fn test_validity_for_rebalance() {
    assert!(is_oracle_valid_for_action(OracleValidity::Valid, Some(NormalAction::Rebalance)));
    assert!(!is_oracle_valid_for_action(OracleValidity::StaleForPool, Some(NormalAction::Rebalance)));
}

#[test]
fn test_validity_for_update_twap() {
    assert!(is_oracle_valid_for_action(OracleValidity::Valid, Some(NormalAction::UpdateTwap)));
    assert!(is_oracle_valid_for_action(OracleValidity::StaleForSwap, Some(NormalAction::UpdateTwap)));
    assert!(is_oracle_valid_for_action(OracleValidity::TooVolatile, Some(NormalAction::UpdateTwap)));
    assert!(!is_oracle_valid_for_action(OracleValidity::NonPositive, Some(NormalAction::UpdateTwap)));
}

#[test]
fn test_validity_for_claim_insurance() {
    assert!(is_oracle_valid_for_action(OracleValidity::Valid, Some(NormalAction::ClaimInsurance)));
    assert!(is_oracle_valid_for_action(OracleValidity::StaleForSwap, Some(NormalAction::ClaimInsurance)));
    assert!(!is_oracle_valid_for_action(OracleValidity::NonPositive, Some(NormalAction::ClaimInsurance)));
    assert!(!is_oracle_valid_for_action(OracleValidity::TooVolatile, Some(NormalAction::ClaimInsurance)));
}

#[test]
fn test_validity_default_action() {
    assert!(is_oracle_valid_for_action(OracleValidity::Valid, None));
    assert!(!is_oracle_valid_for_action(OracleValidity::StaleForPool, None));
    assert!(!is_oracle_valid_for_action(OracleValidity::StaleForSwap, None));
    assert!(!is_oracle_valid_for_action(OracleValidity::TooVolatile, None));
}

#[test]
fn valid_oracle_serves_every_action() {
    let actions = [
        None,
        Some(NormalAction::AddLiquidity),
        Some(NormalAction::RemoveLiquidity),
        Some(NormalAction::Swap),
        Some(NormalAction::UpdateTwap),
        Some(NormalAction::Rebalance),
        Some(NormalAction::ClaimInsurance),
    ];
    for action in actions {
        assert!(is_oracle_valid_for_action(OracleValidity::Valid, action));
        assert!(!is_oracle_valid_for_action(OracleValidity::NonPositive, action));
    }
}

#[test]
fn test_price_sanitization_within_bounds() {
    let sanitized = sanitize_new_price(1050_0000000u128, 1000_0000000u128, 10);
    assert_eq!(sanitized, 1050_0000000u128);
}

#[test]
fn test_price_sanitization_above_upper_bound() {
    let sanitized = sanitize_new_price(1500_0000000u128, 1000_0000000u128, 10);
    assert_eq!(sanitized, 1100_0000000);
}

#[test]
fn test_price_sanitization_below_lower_bound() {
    let sanitized = sanitize_new_price(500_0000000u128, 1000_0000000u128, 10);
    assert_eq!(sanitized, 900_0000000);
}

#[test]
fn test_price_sanitization_zero_twap() {
    let sanitized = sanitize_new_price(1000_0000000u128, 0u128, 10);
    assert_eq!(sanitized, 1000_0000000u128);
}

#[test]
fn test_price_sanitization_zero_clamp() {
    let sanitized = sanitize_new_price(2000_0000000u128, 1000_0000000u128, 0);
    assert_eq!(sanitized, 2000_0000000u128);
}
