use normal_contracts::constants::PRICE_PRECISION_U64;
use normal_contracts::math::calculate_new_twap;
use normal_contracts::math::calculate_weighted_average;
use normal_contracts::oracle::calculate_oracle_twap_price_spread_pct;
use normal_contracts::oracle::is_oracle_valid_for_action;
use normal_contracts::oracle_types::NormalAction;
use normal_contracts::oracle_types::OracleValidity;

fn spread(other_price: u128, twap: u128) -> i64 {
    calculate_oracle_twap_price_spread_pct(other_price, twap).unwrap()
}

#[test]
fn test_twap_price_manipulation_attack() {
    let period = 300u64;
    let mut twap = 1000_0000000u128;
    let mut timestamp = 1000u64;
    for i in 1..=10u128 {
        timestamp += 30;
        let normal_price = 1000_0000000 + (i * 1_0000000);
        twap = calculate_new_twap(normal_price, timestamp, twap, timestamp - 30, period);
    }
    let normal_final_twap = twap;

    twap = 1000_0000000u128;
    timestamp = 1000u64;
    timestamp += 30;
    let attack_price = 10000_0000000u128;
    twap = calculate_new_twap(attack_price, timestamp, twap, timestamp - 30, period);
    for i in 2..=10u128 {
        timestamp += 30;
        let normal_price = 1000_0000000 + (i * 1_0000000);
        twap = calculate_new_twap(normal_price, timestamp, twap, timestamp - 30, period);
    }
    let attack_final_twap = twap;

    let manipulation_impact = attack_final_twap as f64 / normal_final_twap as f64;
    assert!(manipulation_impact < 2.0);
    assert!(manipulation_impact > 0.5);
}

#[test]
fn test_twap_flash_loan_resistance() {
    let period = 300u64;
    let base_twap = 1000_0000000u128;
    let timestamp = 1000u64;
    let flash_price = 100_0000000u128;
    let flash_duration = 1u64;
    let post_flash_twap = calculate_new_twap(flash_price, timestamp + flash_duration, base_twap, timestamp, period);
    let impact = (base_twap as f64 - post_flash_twap as f64) / base_twap as f64;
    assert!(impact < 0.01);

    let longer_flash_duration = 60u64;
    let longer_flash_twap =
        calculate_new_twap(flash_price, timestamp + longer_flash_duration, base_twap, timestamp, period);
    let longer_impact = (base_twap as f64 - longer_flash_twap as f64) / base_twap as f64;
    assert!(longer_impact > impact);
    assert!(longer_impact < 0.2);
}

#[test]
fn test_twap_timestamp_manipulation() {
    let period = 300u64;
    let base_twap = 1000_0000000u128;
    let base_timestamp = 1000u64;
    let normal_price = 1100_0000000u128;
    let normal_timestamp = base_timestamp + 60;
    let normal_twap = calculate_new_twap(normal_price, normal_timestamp, base_twap, base_timestamp, period);

    let manipulated_timestamp = base_timestamp + period;
    let manipulated_twap = calculate_new_twap(normal_price, manipulated_timestamp, base_twap, base_timestamp, period);
    assert_eq!(manipulated_twap, normal_price);
    assert!(manipulated_twap != normal_twap);

    let backwards_timestamp = base_timestamp - 60;
    let backwards_twap = calculate_new_twap(normal_price, backwards_timestamp, base_twap, base_timestamp, period);
    assert!(backwards_twap <= base_twap + (normal_price - base_twap) / 10);
}

#[test]
fn test_twap_precision_attacks() {
    let period = 300u64;
    let base_twap = 1000_0000000u128;
    let timestamp = 1000u64;
    for i in 1..=100u128 {
        let tiny_change = i;
        let new_price = base_twap + tiny_change;
        let new_timestamp = timestamp + (i as u64);
        let new_twap = calculate_new_twap(new_price, new_timestamp, base_twap, timestamp, period);
        assert!(new_twap >= base_twap);
        assert!(new_twap <= base_twap + tiny_change);
    }
    let max_price = u128::MAX / 2;
    let max_twap = calculate_new_twap(max_price, timestamp + 1, base_twap, timestamp, period);
    assert!(max_twap > base_twap);
    assert!(max_twap < u128::MAX);
}

#[test]
fn test_twap_period_boundary_attacks() {
    let period = 300u64;
    let base_twap = 1000_0000000u128;
    let base_timestamp = 1000u64;
    let boundary_price = 2000_0000000u128;
    let boundary_twap = calculate_new_twap(boundary_price, base_timestamp + period, base_twap, base_timestamp, period);
    assert_eq!(boundary_twap, boundary_price);

    let just_before_twap =
        calculate_new_twap(boundary_price, base_timestamp + period - 1, base_twap, base_timestamp, period);
    let expected_weight_old = 1u64;
    let expected_weight_new = period - 1;
    let expected_twap = calculate_weighted_average(boundary_price, base_twap, expected_weight_new, expected_weight_old);
    assert_eq!(just_before_twap, expected_twap);

    let just_after_twap =
        calculate_new_twap(boundary_price, base_timestamp + period + 1, base_twap, base_timestamp, period);
    assert_eq!(just_after_twap, boundary_price);
}

#[test]
fn test_twap_weighted_average_manipulation() {
    let current_price = 2000_0000000u128;
    let last_twap = 1000_0000000u128;
    let normal_since_last = 100u64;
    let normal_from_start = 200u64;
    let normal_avg = calculate_weighted_average(current_price, last_twap, normal_since_last, normal_from_start);
    let expected = (current_price * normal_since_last as u128 + last_twap * normal_from_start as u128)
        / (normal_since_last + normal_from_start) as u128;
    assert_eq!(normal_avg, expected);

    let attack_avg = calculate_weighted_average(current_price, last_twap, 1000, 1);
    assert!(attack_avg > normal_avg);
    assert!(attack_avg > 1900_0000000);

    let reverse_avg = calculate_weighted_average(current_price, last_twap, 1, 1000);
    assert!(reverse_avg < normal_avg);
    assert!(reverse_avg < 1100_0000000);
}

#[test]
fn test_twap_convergence_attacks() {
    let period = 300u64;
    let target_price = 1500_0000000u128;
    let mut twap = 1000_0000000u128;
    let mut timestamp = 1000u64;
    for _ in 0..20 {
        timestamp += 30;
        twap = calculate_new_twap(target_price, timestamp, twap, timestamp - 30, period);
    }
    let honest_convergence = twap;

    twap = 1000_0000000u128;
    timestamp = 1000u64;
    for i in 0..20 {
        timestamp += 30;
        let attack_price = if i % 2 == 0 { target_price + 500_0000000 } else { target_price - 500_0000000 };
        twap = calculate_new_twap(attack_price, timestamp, twap, timestamp - 30, period);
    }
    let attack_convergence = twap;

    let honest_distance = (honest_convergence as i128 - target_price as i128).abs();
    let attack_distance = (attack_convergence as i128 - target_price as i128).abs();
    assert!(honest_distance < 100_0000000);
    assert!(attack_distance < 200_0000000);
}

#[test]
fn test_price_spread_manipulation_detection() {
    let honest_twap = 1000_0000000u128;
    assert_eq!(spread(1000_0000000u128, honest_twap), 0);

    let manipulation_spread = spread(1200_0000000u128, honest_twap);
    let expected_spread = (200_0000000i64 * PRICE_PRECISION_U64 as i64) / 1200_0000000i64;
    assert_eq!(manipulation_spread, expected_spread);
    assert!(manipulation_spread > 0);

    let dump_spread = spread(800_0000000u128, honest_twap);
    assert!(dump_spread < 0);
    assert_eq!(dump_spread, -((200_0000000i64 * PRICE_PRECISION_U64 as i64) / 800_0000000i64));
}

#[test]
fn test_price_spread_sandwich_attack_detection() {
    let normal_twap = 1000_0000000u128;
    assert_eq!(spread(1000_0000000u128, normal_twap), 0);
    let sandwich_spread = spread(1100_0000000u128, normal_twap);
    assert!(sandwich_spread > 0);
    let spread_percent = sandwich_spread as f64 / PRICE_PRECISION_U64 as f64;
    assert!((spread_percent - 0.09).abs() < 0.01);
    assert_eq!(spread(1000_0000000u128, normal_twap), 0);
}

#[test]
fn test_oracle_validity_edge_cases() {
    let valid = OracleValidity::Valid;
    for action in [
        NormalAction::Swap,
        NormalAction::AddLiquidity,
        NormalAction::RemoveLiquidity,
        NormalAction::UpdateTwap,
        NormalAction::Rebalance,
        NormalAction::ClaimInsurance,
    ] {
        assert!(is_oracle_valid_for_action(valid, Some(action)));
    }
    assert!(is_oracle_valid_for_action(valid, None));
    assert!(!is_oracle_valid_for_action(OracleValidity::StaleForPool, None));
}

#[test]
fn test_multi_block_twap_manipulation() {
    let period = 300u64;
    let mut twap = 1000_0000000u128;
    let mut timestamp = 1000u64;
    for _ in 0..10 {
        timestamp += 30;
        twap = calculate_new_twap(1000_0000000u128, timestamp, twap, timestamp - 30, period);
    }
    let baseline_twap = twap;
    for _ in 0..5 {
        timestamp += 30;
        twap = calculate_new_twap(2000_0000000u128, timestamp, twap, timestamp - 30, period);
    }
    let manipulated_twap = twap;
    for _ in 0..10 {
        timestamp += 30;
        twap = calculate_new_twap(1000_0000000u128, timestamp, twap, timestamp - 30, period);
    }
    let final_twap = twap;
    let manipulation_impact = manipulated_twap as f64 / baseline_twap as f64;
    assert!(manipulation_impact > 1.2);
    assert!(manipulation_impact < 1.8);
    assert!(final_twap < manipulated_twap);
    assert!(final_twap > baseline_twap);
}

#[test]
fn test_twap_period_boundary_attack() {
    let period = 300u64;
    let base_twap = 1000_0000000u128;
    let base_timestamp = 1000u64;
    let attack_price = 2000_0000000u128;
    for time_delta in [period - 1, period, period + 1, period * 2] {
        let result_twap = calculate_new_twap(attack_price, base_timestamp + time_delta, base_twap, base_timestamp, period);
        if time_delta == period - 1 {
            let expected = calculate_weighted_average(attack_price, base_twap, period - 1, 1);
            assert_eq!(result_twap, expected);
        } else {
            assert_eq!(result_twap, attack_price);
        }
    }
}

#[test]
fn test_twap_precision_grinding_attack() {
    let period = 300u64;
    let base_twap = 1000_0000000u128;
    let base_timestamp = 1000u64;
    let mut best_manipulation_ratio = 0.0f64;
    let mut best_time_delta = 0u64;
    for time_delta in 1..=period {
        let result_twap = calculate_new_twap(1500_0000000u128, base_timestamp + time_delta, base_twap, base_timestamp, period);
        let manipulation_ratio = result_twap as f64 / base_twap as f64;
        if manipulation_ratio > best_manipulation_ratio {
            best_manipulation_ratio = manipulation_ratio;
            best_time_delta = time_delta;
        }
    }
    assert!(best_time_delta > period * 2 / 3);
    assert!(best_manipulation_ratio > 1.3);
}

#[test]
fn test_twap_revert_attack() {
    let period = 300u64;
    let normal_price = 1000_0000000u128;
    let mut twap = normal_price;
    let mut timestamp = 1000u64;
    timestamp += 60;
    twap = calculate_new_twap(2000_0000000u128, timestamp, twap, timestamp - 60, period);
    let pumped_twap = twap;
    timestamp += 10;
    twap = calculate_new_twap(normal_price, timestamp, twap, timestamp - 10, period);
    let reverted_twap = twap;
    assert!(reverted_twap > normal_price);
    assert!(reverted_twap < pumped_twap);
    let residue_ratio = reverted_twap as f64 / normal_price as f64;
    assert!(residue_ratio > 1.1);
    let exploitation_window = reverted_twap - normal_price;
    assert!(exploitation_window > 50_0000000);
}

#[test]
fn test_twap_statistical_attack() {
    let period = 300u64;
    let base_twap = 1000_0000000u128;
    let base_timestamp = 1000u64;
    let scenarios = [(30u64, 0.1f64), (60u64, 0.2f64), (150u64, 0.5f64), (240u64, 0.8f64), (270u64, 0.9f64)];
    for (time_delta, expected_weight_ratio) in scenarios {
        let attack_price = 2000_0000000u128;
        let result_twap = calculate_new_twap(attack_price, base_timestamp + time_delta, base_twap, base_timestamp, period);
        let price_diff = attack_price - base_twap;
        let twap_diff = result_twap - base_twap;
        let actual_weight_ratio = twap_diff as f64 / price_diff as f64;
        assert!((actual_weight_ratio - expected_weight_ratio).abs() < 0.05);
    }
}

#[test]
fn test_twap_arbitrage_extraction() {
    let period = 300u64;
    let mut twap = 1000_0000000u128;
    let mut timestamp = 1000u64;
    let new_market_price = 1200_0000000u128;
    timestamp += 60;
    twap = calculate_new_twap(new_market_price, timestamp, twap, timestamp - 60, period);
    assert!(twap < new_market_price);
    let arbitrage_gap = new_market_price - twap;
    assert!(arbitrage_gap > 100_0000000);
    let arbitrage_profit_percent = (arbitrage_gap as f64 / twap as f64) * 100.0;
    assert!(arbitrage_profit_percent > 10.0);
}

#[test]
fn test_twap_funding_rate_manipulation() {
    let period = 300u64;
    let mut twap = 1000_0000000u128;
    let mut timestamp = 1000u64;
    let spot_price = 1000_0000000u128;
    let normal_spread = (twap as i128 - spot_price as i128).abs();
    let normal_funding_rate = normal_spread / 1000;
    timestamp += 120;
    twap = calculate_new_twap(1400_0000000u128, timestamp, twap, timestamp - 120, period);
    let manipulated_spread = (twap as i128 - spot_price as i128).abs();
    let manipulated_funding_rate = manipulated_spread / 1000;
    assert!(manipulated_funding_rate > normal_funding_rate);
    assert!(manipulated_funding_rate - normal_funding_rate > 100);
}

#[test]
fn test_twap_insurance_premium_manipulation() {
    let period = 300u64;
    let mut twap = 1000_0000000u128;
    let mut timestamp = 1000u64;
    let mut twap_changes: Vec<i128> = Vec::new();
    for _ in 0..10 {
        timestamp += 30;
        let stable_price = 1000_0000000u128 + ((timestamp % 10) as u128) * 100000;
        let old_twap = twap;
        twap = calculate_new_twap(stable_price, timestamp, twap, timestamp - 30, period);
        twap_changes.push((twap as i128 - old_twap as i128).abs());
    }
    let normal_volatility: i128 = twap_changes.iter().sum::<i128>() / twap_changes.len() as i128;
    twap_changes.clear();
    for i in 0..10 {
        timestamp += 30;
        let volatile_price = if i % 2 == 0 { 1500_0000000u128 } else { 500_0000000u128 };
        let old_twap = twap;
        twap = calculate_new_twap(volatile_price, timestamp, twap, timestamp - 30, period);
        twap_changes.push((twap as i128 - old_twap as i128).abs());
    }
    let attack_volatility: i128 = twap_changes.iter().sum::<i128>() / twap_changes.len() as i128;
    assert!(attack_volatility > normal_volatility * 5);
    let premium_multiplier = attack_volatility as f64 / normal_volatility as f64;
    assert!(premium_multiplier > 3.0);
}

#[test]
fn normal_operation_when_price_decreases() {
    let twap = 1_000_000_u128;
    let live_price = 980_000_u128;
    let s = spread(twap, live_price);
    assert!(s > 0);
}
