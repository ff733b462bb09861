use normal_contracts::constants::PERCENTAGE_PRECISION_U32;
use normal_contracts::insurance_errors::InsuranceFundError;
use normal_contracts::interest::calculate_rate;
use normal_contracts::interest::calculate_utilization;
use soroban_sdk::Env;

const PRICE_PRECISION: u128 = 10_000_000;

fn utilization(total_reserve_value: u128, optimal_insurance: u128) -> u32 {
    let e = Env::default();
    calculate_utilization(&e, total_reserve_value, optimal_insurance)
}

fn rate(utilization: u32, optimal_utilization: u32, base_rate: i32, slope1: u32, slope2: u32) -> i32 {
    calculate_rate(utilization, optimal_utilization, base_rate, slope1, slope2).unwrap()
}

#[test]
fn interest_test_utilization_100_percent() {
    let u = utilization(1_000_000 * PRICE_PRECISION, 1_000_000 * PRICE_PRECISION);
    assert_eq!(u, 1 * PERCENTAGE_PRECISION_U32);
}

#[test]
fn interest_test_utilization_50_percent() {
    let u = utilization(500_000 * PRICE_PRECISION, 1_000_000 * PRICE_PRECISION);
    assert_eq!(u, 5_000_000);
}

#[test]
fn test_utilization_above_100_percent() {
    let u = utilization(2_000_000 * PRICE_PRECISION, 1_000_000 * PRICE_PRECISION);
    assert_eq!(u, 2 * PERCENTAGE_PRECISION_U32);
}

#[test]
fn test_zero_coverage_returns_zero() {
    assert_eq!(utilization(1_000_000 * PRICE_PRECISION, 0), 0);
}

#[test]
fn test_utilization_clamps_to_u32_max_original() {
    assert_eq!(utilization(u128::MAX, 1), u32::MAX);
}

#[test]
fn test_zero_vault_amount() {
    assert_eq!(utilization(0, 1_000_000 * PRICE_PRECISION), 0);
}

#[test]
fn test_utilization_above_100_percent_in_rate() {
    assert_eq!(rate(11_000, 8000, 100, 400, 1500), 2750);
}

#[test]
fn test_zero_utilization() {
    assert_eq!(rate(0, 8000, 100, 400, 1500), 100);
}

#[test]
fn test_negative_base_rate() {
    assert_eq!(rate(5000, 8000, -100, 400, 1500), 150);
}

#[test]
fn test_low_utilization_rate() {
    assert_eq!(rate(5000, 8000, 100, 400, 1500), 350);
}

#[test]
fn test_utilization_at_optimal() {
    assert_eq!(rate(8000, 8000, 100, 400, 1500), 500);
}

#[test]
fn test_high_utilization_rate() {
    assert_eq!(rate(9500, 8000, 100, 400, 1500), 1625);
}

#[test]
fn test_max_utilization() {
    assert_eq!(rate(10_000, 8000, 100, 400, 1500), 2000);
}

#[test]
fn test_utilization_clamps_to_u32_max() {
    assert_eq!(utilization(u128::MAX, 1), u32::MAX);
}

#[test]
fn test_utilization_overflow_protection() {
    let test_cases = [(u128::MAX, 1), (u128::MAX / 2, 1), (1_000_000_000_000_000_000_u128, 1)];
    for (total_reserve, optimal) in test_cases {
        let u = utilization(total_reserve, optimal);
        assert!(u <= u32::MAX);
    }
}

#[test]
fn utilization_floors_at_the_last_unit() {
    let base_amount = 1_000_000 * PRICE_PRECISION;
    assert_eq!(utilization(base_amount + 1, base_amount), PERCENTAGE_PRECISION_U32);
    assert_eq!(utilization(base_amount - 1, base_amount), PERCENTAGE_PRECISION_U32 - 1);
    assert_eq!(utilization(base_amount + base_amount / 10_000_000, base_amount), PERCENTAGE_PRECISION_U32 + 1);
}

#[test]
fn test_negative_base_rate_bounds() {
    let r = rate(5000, 8000, i32::MIN + 1000, 400, 1500);
    assert!(r < 0);
}

#[test]
fn test_interest_rate_monotonicity() {
    let base_rate = 100;
    let slope1 = 400;
    let slope2 = 1500;
    let optimal_util = 8000;
    let mut prev_rate = rate(0, optimal_util, base_rate, slope1, slope2);
    for util in (1000..=10000).step_by(1000) {
        let current_rate = rate(util, optimal_util, base_rate, slope1, slope2);
        assert!(
            current_rate >= prev_rate,
            "Interest rate should be monotonically increasing: {} >= {}",
            current_rate,
            prev_rate
        );
        prev_rate = current_rate;
    }
}

#[test]
fn test_utilization_zero_vault() {
    assert_eq!(utilization(0, 1000_0000000), 0);
}

#[test]
fn test_utilization_zero_optimal() {
    assert_eq!(utilization(1000_0000000, 0), 0);
}

#[test]
fn calculation_tests_test_utilization_50_percent() {
    let vault = 500_0000000 * PRICE_PRECISION;
    let optimal = 1000_0000000 * PRICE_PRECISION;
    assert_eq!(utilization(vault, optimal), PERCENTAGE_PRECISION_U32 / 2);
}

#[test]
fn calculation_tests_test_utilization_100_percent() {
    let vault = 1000_0000000 * PRICE_PRECISION;
    let optimal = 1000_0000000 * PRICE_PRECISION;
    assert_eq!(utilization(vault, optimal), PERCENTAGE_PRECISION_U32);
}

#[test]
fn test_utilization_over_100_percent() {
    let vault = 1500_0000000 * PRICE_PRECISION;
    let optimal = 1000_0000000 * PRICE_PRECISION;
    assert_eq!(utilization(vault, optimal), PERCENTAGE_PRECISION_U32 * 3 / 2);
}

#[test]
fn test_utilization_precision() {
    let vault = 1 * PRICE_PRECISION;
    let optimal = 1000 * PRICE_PRECISION;
    assert_eq!(utilization(vault, optimal), 10000);
}

#[test]
fn test_rate_zero_utilization() {
    assert_eq!(rate(0, 8000, 100, 400, 1500), 100);
}

#[test]
fn test_rate_at_optimal() {
    assert_eq!(rate(8000, 8000, 100, 400, 1500), 500);
}

#[test]
fn test_rate_below_optimal() {
    assert_eq!(rate(4000, 8000, 100, 400, 1500), 300);
}

#[test]
fn test_rate_above_optimal() {
    assert_eq!(rate(9000, 8000, 100, 400, 1500), 1250);
}

#[test]
fn test_rate_at_100_percent() {
    assert_eq!(rate(10000, 8000, 100, 400, 1500), 2000);
}

#[test]
fn test_rate_negative_base() {
    assert_eq!(rate(0, 8000, -200, 400, 1500), -200);
    assert_eq!(rate(8000, 8000, -200, 400, 1500), 200);
}

#[test]
fn test_rate_curve_continuity() {
    let rate_just_below = rate(7999, 8000, 100, 400, 1500);
    let rate_at_optimal = rate(8000, 8000, 100, 400, 1500);
    let rate_just_above = rate(8001, 8000, 100, 400, 1500);
    assert!(rate_at_optimal >= rate_just_below);
    assert!(rate_just_above >= rate_at_optimal);
    assert!((rate_just_above - rate_just_below) < 10);
}

#[test]
fn test_aave_v3_like_curve() {
    let optimal_util = 8000;
    let base_rate = 0;
    let slope1 = 400;
    let slope2 = 6000;
    let rate_0 = rate(0, optimal_util, base_rate, slope1, slope2);
    let rate_50 = rate(5000, optimal_util, base_rate, slope1, slope2);
    let rate_80 = rate(8000, optimal_util, base_rate, slope1, slope2);
    let rate_90 = rate(9000, optimal_util, base_rate, slope1, slope2);
    let rate_100 = rate(10000, optimal_util, base_rate, slope1, slope2);
    assert_eq!(rate_0, 0);
    assert_eq!(rate_50, 250);
    assert_eq!(rate_80, 400);
    assert_eq!(rate_90, 3400);
    assert_eq!(rate_100, 6400);
    assert!(rate_50 < rate_80);
    assert!(rate_80 < rate_90);
    assert!((rate_90 - rate_80) > (rate_80 - rate_50));
}

#[test]
fn test_utilization_overflow_attack() {
    let u = utilization(u128::MAX, 1_u128);
    assert_eq!(u, u32::MAX);
    assert_ne!(u, 0, "Utilization should not be 0 due to truncation");
}

#[test]
fn test_interest_rate_precision_boundaries() {
    let optimal_utilization = 8000;
    let base_rate = 100;
    let slope1 = 400;
    let slope2 = 1500;
    let rate_at_optimal = rate(optimal_utilization, optimal_utilization, base_rate, slope1, slope2);
    let rate_below = rate(optimal_utilization - 1, optimal_utilization, base_rate, slope1, slope2);
    let rate_above = rate(optimal_utilization + 1, optimal_utilization, base_rate, slope1, slope2);
    assert!(rate_below <= rate_at_optimal, "Rate should not decrease before optimal");
    assert!(rate_above >= rate_at_optimal, "Rate should not decrease after optimal");
    let expected_at_optimal = base_rate + slope1 as i32;
    assert_eq!(rate_at_optimal, expected_at_optimal, "Rate at optimal should be base + slope1");
}

#[test]
fn test_interest_rate_curve_properties() {
    let optimal_utilization = 8000;
    let base_rate = 100;
    let slope1 = 400;
    let slope2 = 1500;
    let mut prev_rate = rate(0, optimal_utilization, base_rate, slope1, slope2);
    for u in (1000..optimal_utilization).step_by(1000) {
        let current_rate = rate(u, optimal_utilization, base_rate, slope1, slope2);
        assert!(current_rate >= prev_rate);
        prev_rate = current_rate;
    }
    prev_rate = rate(optimal_utilization, optimal_utilization, base_rate, slope1, slope2);
    for u in ((optimal_utilization + 1000)..=10000).step_by(1000) {
        let current_rate = rate(u, optimal_utilization, base_rate, slope1, slope2);
        assert!(current_rate >= prev_rate);
        prev_rate = current_rate;
    }
}

#[test]
fn test_rounding_bias_mitigation() {
    let optimal_utilization = 8000;
    let base_rate = 100;
    let slope1 = 400;
    let slope2 = 1500u32;
    let mut rates = Vec::new();
    for u in (0..=10000).step_by(100) {
        rates.push(rate(u, optimal_utilization, base_rate, slope1, slope2));
    }
    for i in 1..rates.len() {
        let rate_change = (rates[i] - rates[i - 1]).abs();
        let max_expected_change = slope2 as i32 / 10;
        assert!(rate_change <= max_expected_change, "Rate change too large at index {}", i);
    }
}

#[test]
fn zero_optimal_utilization_is_a_configuration_error() {
    assert_eq!(calculate_rate(5000, 0, 100, 400, 1500), Err(InsuranceFundError::InvalidConfiguration));
}

#[test]
fn full_optimal_utilization_refuses_excess_utilization() {
    assert_eq!(
        calculate_rate(10_001, 10_000, 100, 400, 1500),
        Err(InsuranceFundError::InvalidConfiguration)
    );
}

#[test]
fn rate_out_of_i32_range_is_a_conversion_error() {
    assert_eq!(
        calculate_rate(8000, 8000, i32::MAX, 400, 1500),
        Err(InsuranceFundError::ConversionOverflow)
    );
}

#[test]
fn optimal_utilization_above_full_is_a_configuration_error() {
    let r = calculate_rate(5000, 10001, 100, 400, 1500);
    assert_eq!(r, Err(InsuranceFundError::InvalidConfiguration));
    assert_eq!(InsuranceFundError::InvalidConfiguration.code(), 21);
    assert_eq!(calculate_rate(1, 16_000, 100, 400, 1500), Err(InsuranceFundError::InvalidConfiguration));
    assert_eq!(calculate_rate(0, 16_000, 100, 400, 1500), Ok(100));
    assert_eq!(rate(5000, 10_000, 100, 400, 1500), 300);
}

#[test]
fn test_extreme_parameter_robustness() {
    let extreme_cases = [
        (u32::MAX, u32::MAX - 1, i32::MAX, u32::MAX, u32::MAX),
        (0, u32::MAX, i32::MIN, 0, 0),
        (1, u32::MAX, -1000000, 1000000, 1000000),
        (u32::MAX, u32::MAX, 0, 0, 0),
    ];
    for (util, opt_util, base, slope1, slope2) in extreme_cases {
        if opt_util == 0 {
            continue;
        }
        let rate = calculate_rate(util, opt_util, base, slope1, slope2);
        if let Ok(r) = rate {
            assert!(r >= i32::MIN && r <= i32::MAX);
        }
        if util == 0 {
            assert_eq!(rate, Ok(base), "Zero utilization should return base rate");
        }
    }
}

#[test]
fn test_conversion_overflow_detection() {
    let valid_cases = [
        (1000, 8000, 100, 400, 1500),
        (u32::MAX / 2, u32::MAX / 2, i32::MAX / 2, u32::MAX / 2, u32::MAX / 2),
    ];
    for (util, opt_util, base, slope1, slope2) in valid_cases {
        let _rate = calculate_rate(util, opt_util, base, slope1, slope2);
    }
}

#[test]
fn test_interest_rate_conversion_safety() {
    let test_cases = [
        (u32::MAX, 8000, i32::MIN, u32::MAX, u32::MAX),
        (0, u32::MAX, i32::MAX, 0, 0),
        (5000, 8000, -10000, 400, 1500),
    ];
    for (util, opt_util, base, slope1, slope2) in test_cases {
        if opt_util == 0 {
            continue;
        }
        let _rate = calculate_rate(util, opt_util, base, slope1, slope2);
    }
}

#[test]
fn zero_utilization_gives_the_base_rate_for_any_positive_optimum() {
    assert_eq!(calculate_rate(0, u32::MAX, i32::MIN, 0, 0), Ok(i32::MIN));
    assert_eq!(calculate_rate(0, 8000, 100, 400, 1500), Ok(100));
    assert_eq!(calculate_rate(0, 0, 100, 400, 1500), Err(InsuranceFundError::InvalidConfiguration));
}

