use normal_contracts::elastic::calculate_target_reserve_with_smoothing;
use normal_contracts::elastic::get_delta_a;
use normal_contracts::elastic::peg_price;
use normal_contracts::elastic::rebalance;
use normal_contracts::elastic::safe_fixed_div_round;
use normal_contracts::elastic::RebalanceAction;
use normal_contracts::pool::get_target_oracle_price;
use normal_contracts::pool::Pool;
use normal_contracts::pool::PoolError;
use normal_contracts::pool::PoolTier;
use soroban_sdk::testutils::Address as _;
use soroban_sdk::Address;
use soroban_sdk::Env;

const PRICE_PRECISION: u128 = 10_000_000;

fn pool(env: &Env, tier: PoolTier, fee_fraction: u32) -> Pool {
    Pool {
        token_a: Address::generate(env),
        token_b: Address::generate(env),
        tier,
        fee_fraction,
        expiry_ts: 0,
        expiry_price: 0,
    }
}

#[test]
fn swap_quote_takes_the_fee_from_the_output() {
    let env = Env::default();
    let p = pool(&env, PoolTier::A, 30);
    let (out, fee) = p.get_amount_out(&env, 1_000, 10_000, 10_000);
    assert_eq!(out + fee, 909);
    assert_eq!(fee, 3);
    assert_eq!(out, 906);
    assert_eq!(p.get_amount_out(&env, 0, 10_000, 10_000), (0, 0));
    let (huge_out, huge_fee) = p.get_amount_out(&env, u64::MAX as u128, 10_000, 10_000);
    assert!(huge_out + huge_fee < 10_000);
}

#[test]
fn strict_receive_quote() {
    let env = Env::default();
    let p = pool(&env, PoolTier::B, 30);
    let (input, fee) = p.get_amount_out_strict_receive(&env, 900, 10_000, 10_000).unwrap();
    assert_eq!(fee, 3);
    assert_eq!(input, 10_000 * 10_000 / (10_000 - 903) - 10_000 + 1);
    assert_eq!(p.get_amount_out_strict_receive(&env, 0, 10_000, 10_000), Ok((0, 0)));
    assert_eq!(
        p.get_amount_out_strict_receive(&env, 9_999, 10_000, 10_000),
        Err(PoolError::InsufficientBalance)
    );
}

#[test]
fn pool_prices() {
    let env = Env::default();
    let p = pool(&env, PoolTier::C, 0);
    assert_eq!(p.get_current_price(&env, 1_000, 2_000, true, false, 0), 2 * PRICE_PRECISION);
    assert_eq!(p.get_current_price(&env, 1_000, 2_000, false, false, 0), PRICE_PRECISION / 2);
    assert_eq!(p.get_current_price(&env, 1_000, 2_000, true, true, 3 * PRICE_PRECISION), 6 * PRICE_PRECISION);
    assert_eq!(p.get_current_price(&env, 0, 2_000, true, true, 3 * PRICE_PRECISION), 0);
    assert_eq!(get_target_oracle_price(2 * PRICE_PRECISION, PRICE_PRECISION), PRICE_PRECISION / 2);
    assert_eq!(get_target_oracle_price(0, PRICE_PRECISION), 0);
}

#[test]
fn tier_parameters() {
    let env = Env::default();
    assert_eq!(pool(&env, PoolTier::A, 0).get_max_confidence_interval_multiplier(), 1);
    assert_eq!(pool(&env, PoolTier::C, 0).get_max_confidence_interval_multiplier(), 2);
    assert_eq!(pool(&env, PoolTier::Speculative, 0).get_max_confidence_interval_multiplier(), 10);
    assert_eq!(pool(&env, PoolTier::Isolated, 0).get_max_confidence_interval_multiplier(), 50);
    assert_eq!(pool(&env, PoolTier::A, 0).get_sanitize_clamp_denominator(), Some(10));
    assert_eq!(pool(&env, PoolTier::B, 0).get_sanitize_clamp_denominator(), Some(5));
    assert_eq!(pool(&env, PoolTier::HighlySpeculative, 0).get_sanitize_clamp_denominator(), None);
}

#[test]
fn rounding_division_rounds_half_up() {
    let env = Env::default();
    assert_eq!(safe_fixed_div_round(&env, 5, 2, 1), 3);
    assert_eq!(safe_fixed_div_round(&env, 7, 3, 1), 2);
    assert_eq!(safe_fixed_div_round(&env, 8, 3, 1), 3);
    assert_eq!(peg_price(&env, 3 * PRICE_PRECISION, 2 * PRICE_PRECISION), 15_000_000);
}

#[test]
fn target_reserve_has_a_dead_band() {
    let env = Env::default();
    assert_eq!(calculate_target_reserve_with_smoothing(&env, 1_000_000, 1_000_000, PRICE_PRECISION), 1_000_000);
    assert_eq!(calculate_target_reserve_with_smoothing(&env, 1_000_050, 1_000_000, PRICE_PRECISION), 1_000_050);
    assert_eq!(calculate_target_reserve_with_smoothing(&env, 1_000_200, 1_000_000, PRICE_PRECISION), 1_000_000);
    assert_eq!(calculate_target_reserve_with_smoothing(&env, 0, 1_000_000, 2 * PRICE_PRECISION), 500_000);
}

#[test]
fn delta_is_capped_at_a_twentieth_of_the_reserve() {
    let env = Env::default();
    assert_eq!(get_delta_a(&env, 1_000_000, 1_010_000, PRICE_PRECISION, PRICE_PRECISION), Ok(10_000));
    assert_eq!(get_delta_a(&env, 1_000_000, 2_000_000, PRICE_PRECISION, PRICE_PRECISION), Ok(50_000));
    assert_eq!(get_delta_a(&env, 1_000_000, 500_000, PRICE_PRECISION, PRICE_PRECISION), Ok(-50_000));
    assert_eq!(get_delta_a(&env, 1_000_000, 1_000_000, PRICE_PRECISION, PRICE_PRECISION), Ok(0));
}

#[test]
fn rebalance_actions() {
    let env = Env::default();
    let p = PRICE_PRECISION;
    let mint = rebalance(&env, 1_000_000, 1_010_000, p, p, false, 0, 0).unwrap();
    assert_eq!(mint.action, RebalanceAction::Mint);
    assert_eq!(mint.new_reserve_a, 1_010_000);
    let burn = rebalance(&env, 1_000_000, 990_000, p, p, false, 0, 0).unwrap();
    assert_eq!(burn.action, RebalanceAction::Burn);
    assert_eq!(burn.new_reserve_a, 990_000);
    let still = rebalance(&env, 1_000_000, 1_000_000, p, p, true, 0, 0).unwrap();
    assert_eq!(still.action, RebalanceAction::Unchanged);
    let capped = rebalance(&env, 1_000_000, 1_010_000, p, p, true, 1_000_000, 10).unwrap();
    assert_eq!(capped.action, RebalanceAction::CappedMint);
    assert_eq!(capped.new_reserve_a, 1_000_000);
    assert_eq!(
        rebalance(&env, 1_000_000, 1_010_000, p, p, true, 10_000, 10),
        Err(PoolError::SwapReduceOnly)
    );
    assert_eq!(rebalance(&env, 1_000_000, 1_010_000, p, p, true, 10_000, 0), Err(PoolError::MathError));
    let burn_reduce_only = rebalance(&env, 1_000_000, 990_000, p, p, true, 0, 0).unwrap();
    assert_eq!(burn_reduce_only.action, RebalanceAction::Burn);
}

#[test]
fn pool_rebalance_moves_reserve_a_to_the_target() {
    let env = Env::default();
    let p = pool(&env, PoolTier::A, 0);
    assert_eq!(p.get_delta_a(&env, 1_000, 2_000, 2 * PRICE_PRECISION), 0);
    assert_eq!(p.rebalance(&env, 1_000, 2_000, PRICE_PRECISION), (1_000, 2_000));
    assert_eq!(p.rebalance(&env, 1_000, 2_000, 4 * PRICE_PRECISION), (-500, 500));
    assert_eq!(p.rebalance(&env, 1_000, 2_000, 2 * PRICE_PRECISION), (0, 1_000));
}
