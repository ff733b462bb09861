use vstd::prelude::*;
use crate::constants::PRICE_PRECISION;
use crate::fixed_point::soroban_div_floor_u128;
use crate::pool::PoolError;

verus! {

/// `round(n / y)` with halves rounded up, for `y > 0`.
pub open spec fn round_div(n: int, y: int) -> int {
    (2 * n + y) / (2 * y)
}

/// `x * denominator / y` rounded to the nearest integer (halves up), computed on the host as
/// half of one more than the floor of the doubled quotient.
pub fn safe_fixed_div_round(e: &soroban_sdk::Env, x: u128, y: u128, denominator: u128) -> (r: u128)
    requires
        y != 0,
        2 * denominator <= u128::MAX,
        (x * (2 * denominator)) / (y as int) + 1 <= u128::MAX,
    ensures
        r == round_div(x * denominator, y as int),
{
    let doubled = soroban_div_floor_u128(e, x, y, 2 * denominator);
    proof {
        let a = x * (2 * denominator);
        let t = a / (y as int);
        assert(a >= 0 && a == 2 * (x * denominator)) by (nonlinear_arith)
            requires
                a == x * (2 * denominator),
                x >= 0,
                denominator >= 0,
        ;
        vstd::arithmetic::div_mod::lemma_fundamental_div_mod(a, y as int);
        let rem = a % (y as int);
        assert(a + y == (t + 1) * y + rem) by (nonlinear_arith)
            requires
                a == y * t + rem,
        ;
        vstd::arithmetic::div_mod::lemma_fundamental_div_mod_converse(
            a + y,
            y as int,
            t + 1,
            rem,
        );
        vstd::arithmetic::div_mod::lemma_div_denominator(a + y, y as int, 2);
        assert((y as int) * 2 == 2 * y);
    }
    (doubled + 1) / 2
}

/// Price of the synthetic base asset in the quote asset, in price precision.
pub open spec fn peg_price_spec(base_oracle_price: u128, quote_oracle_price: u128) -> int {
    (base_oracle_price * PRICE_PRECISION) / (quote_oracle_price as int)
}

/// The peg: the base asset's oracle price over the quote asset's, in price precision.
pub fn peg_price(e: &soroban_sdk::Env, base_oracle_price: u128, quote_oracle_price: u128) -> (r:
    u128)
    requires
        quote_oracle_price != 0,
        peg_price_spec(base_oracle_price, quote_oracle_price) <= u128::MAX,
    ensures
        r == peg_price_spec(base_oracle_price, quote_oracle_price),
{
    soroban_div_floor_u128(e, base_oracle_price, quote_oracle_price, PRICE_PRECISION)
}

/// The reserve A that puts the pool on the peg, unless it differs from the current reserve by
/// no more than one ten-thousandth of it, in which case the current reserve stands.
pub open spec fn smoothed_target_spec(current_reserve_a: u128, reserve_b: u128, peg: int) -> int {
    let raw = round_div(reserve_b * PRICE_PRECISION, peg);
    let epsilon = current_reserve_a as int / 10_000;
    let delta_abs = if raw > current_reserve_a {
        raw - current_reserve_a
    } else {
        current_reserve_a - raw
    };
    if delta_abs <= epsilon {
        current_reserve_a as int
    } else {
        raw
    }
}

/// The rounding division of the target stays within a `u128`.
pub open spec fn target_fits(reserve_b: u128, peg: int) -> bool {
    (reserve_b * (2 * PRICE_PRECISION)) / peg + 1 <= u128::MAX
}

/// Computes the target reserve A with a dead band of one ten-thousandth against precision
/// games.
pub fn calculate_target_reserve_with_smoothing(
    e: &soroban_sdk::Env,
    current_reserve_a: u128,
    reserve_b: u128,
    peg_price: u128,
) -> (r: u128)
    requires
        peg_price != 0,
        target_fits(reserve_b, peg_price as int),
    ensures
        r == smoothed_target_spec(current_reserve_a, reserve_b, peg_price as int),
{
    let raw_target_reserve_a = safe_fixed_div_round(e, reserve_b, peg_price, PRICE_PRECISION);
    let epsilon_threshold = current_reserve_a / 10_000;
    let delta_abs = if raw_target_reserve_a > current_reserve_a {
        raw_target_reserve_a - current_reserve_a
    } else {
        current_reserve_a - raw_target_reserve_a
    };
    if delta_abs <= epsilon_threshold {
        current_reserve_a
    } else {
        raw_target_reserve_a
    }
}

/// The change of reserve A that re-pegs the pool, capped at a twentieth of the reserve per
/// operation; `MathError` when a reserve does not fit an `i128`.
pub open spec fn delta_a_spec(
    reserve_a: u128,
    reserve_b: u128,
    base_oracle_price: u128,
    quote_oracle_price: u128,
) -> Result<int, PoolError> {
    let peg = peg_price_spec(base_oracle_price, quote_oracle_price);
    let target = smoothed_target_spec(reserve_a, reserve_b, peg);
    if target > i128::MAX || reserve_a > i128::MAX {
        Err(PoolError::MathError)
    } else {
        let raw = target - reserve_a;
        let cap = reserve_a as int / 20;
        if raw > cap {
            Ok(cap)
        } else if raw < -cap {
            Ok(-cap)
        } else {
            Ok(raw)
        }
    }
}

/// The oracle prices give a positive peg whose target fits a `u128`.
pub open spec fn delta_a_fits(reserve_b: u128, base_oracle_price: u128, quote_oracle_price: u128) -> bool {
    &&& quote_oracle_price != 0
    &&& peg_price_spec(base_oracle_price, quote_oracle_price) <= u128::MAX
    &&& peg_price_spec(base_oracle_price, quote_oracle_price) != 0
    &&& target_fits(reserve_b, peg_price_spec(base_oracle_price, quote_oracle_price))
}

/// Computes the delta needed to re-peg reserve A (mint when positive, burn when negative).
pub fn get_delta_a(
    e: &soroban_sdk::Env,
    reserve_a: u128,
    reserve_b: u128,
    base_oracle_price: u128,
    quote_oracle_price: u128,
) -> (r: Result<i128, PoolError>)
    requires
        delta_a_fits(reserve_b, base_oracle_price, quote_oracle_price),
    ensures
        r matches Ok(d) ==> delta_a_spec(reserve_a, reserve_b, base_oracle_price, quote_oracle_price)
            == Ok::<int, PoolError>(d as int),
        r matches Err(err) ==> delta_a_spec(reserve_a, reserve_b, base_oracle_price, quote_oracle_price)
            == Err::<int, PoolError>(err),
        r matches Ok(d) ==> -(reserve_a as int / 20) <= d <= reserve_a as int / 20,
{
    let peg = peg_price(e, base_oracle_price, quote_oracle_price);
    let target_reserve_a = calculate_target_reserve_with_smoothing(e, reserve_a, reserve_b, peg);
    if target_reserve_a > 170141183460469231731687303715884105727u128 || reserve_a
        > 170141183460469231731687303715884105727u128 {
        return Err(PoolError::MathError);
    }
    let target_reserve_a_i128 = target_reserve_a as i128;
    let reserve_a_i128 = reserve_a as i128;
    let delta_a_raw = target_reserve_a_i128 - reserve_a_i128;
    let max_delta_per_ledger = reserve_a_i128 / 20;
    let delta_a = if delta_a_raw > max_delta_per_ledger {
        max_delta_per_ledger
    } else if delta_a_raw < -max_delta_per_ledger {
        -max_delta_per_ledger
    } else {
        delta_a_raw
    };
    Ok(delta_a)
}

/// What a rebalance does to reserve A.
#[derive(Clone, Copy, Debug, PartialEq, Eq, Structural)]
pub enum RebalanceAction {
    /// The pool is on its peg.
    Unchanged,
    /// A mint was wanted but the pool only reduces; it stayed under the mint cap, so only the
    /// capped-mint event is reported.
    CappedMint,
    /// Synthetic tokens are minted into reserve A.
    Mint,
    /// Synthetic tokens are burned from reserve A.
    Burn,
}

/// A rebalance's outcome: the action, the delta it was computed from, and the new reserve A.
#[derive(Clone, Copy, Debug, PartialEq, Eq, Structural)]
pub struct Rebalance {
    pub action: RebalanceAction,
    pub delta_a: i128,
    pub new_reserve_a: u128,
}

/// Mints or burns synthetic tokens to restore the peg; a pool that only reduces refuses (as
/// `SwapReduceOnly`) a mint above its cap of `total_supply / mint_cap_fraction` and otherwise
/// mints nothing.
pub fn rebalance(
    e: &soroban_sdk::Env,
    reserve_a: u128,
    reserve_b: u128,
    base_oracle_price: u128,
    quote_oracle_price: u128,
    reduce_only: bool,
    total_synthetic_supply: u128,
    mint_cap_fraction: u32,
) -> (r: Result<Rebalance, PoolError>)
    requires
        delta_a_fits(reserve_b, base_oracle_price, quote_oracle_price),
    ensures
        r matches Err(err) ==> (delta_a_spec(reserve_a, reserve_b, base_oracle_price, quote_oracle_price)
            == Err::<int, PoolError>(err) || (delta_a_spec(
            reserve_a,
            reserve_b,
            base_oracle_price,
            quote_oracle_price,
        ) matches Ok(d) && d > 0 && reduce_only && (err == PoolError::MathError && (
        mint_cap_fraction == 0 || total_synthetic_supply as int / mint_cap_fraction as int
            > i128::MAX) || err == PoolError::SwapReduceOnly && mint_cap_fraction != 0 && d
            > total_synthetic_supply as int / mint_cap_fraction as int))),
        r matches Ok(out) ==> delta_a_spec(reserve_a, reserve_b, base_oracle_price, quote_oracle_price)
            == Ok::<int, PoolError>(out.delta_a as int),
        r matches Ok(out) ==> (out.delta_a == 0 ==> out.action == RebalanceAction::Unchanged
            && out.new_reserve_a == reserve_a),
        r matches Ok(out) ==> (out.delta_a > 0 && reduce_only ==> out.action
            == RebalanceAction::CappedMint && out.new_reserve_a == reserve_a && mint_cap_fraction
            != 0 && out.delta_a <= total_synthetic_supply as int / mint_cap_fraction as int),
        r matches Ok(out) ==> (out.delta_a > 0 && !reduce_only ==> out.action == RebalanceAction::Mint
            && out.new_reserve_a == reserve_a + out.delta_a),
        r matches Ok(out) ==> (out.delta_a < 0 ==> out.action == RebalanceAction::Burn
            && out.new_reserve_a == reserve_a + out.delta_a),
        delta_a_spec(reserve_a, reserve_b, base_oracle_price, quote_oracle_price) matches Ok(d) ==> (
        r is Err <==> (d > 0 && reduce_only && (mint_cap_fraction == 0 || total_synthetic_supply as int
            / mint_cap_fraction as int > i128::MAX || d > total_synthetic_supply as int
            / mint_cap_fraction as int))),
{
    let delta_a = get_delta_a(e, reserve_a, reserve_b, base_oracle_price, quote_oracle_price)?;
    if delta_a == 0 {
        return Ok(Rebalance { action: RebalanceAction::Unchanged, delta_a, new_reserve_a: reserve_a });
    }
    if delta_a > 0 {
        if reduce_only {
            if mint_cap_fraction == 0 {
                return Err(PoolError::MathError);
            }
            let mint_cap_u128 = total_synthetic_supply / (mint_cap_fraction as u128);
            if mint_cap_u128 > 170141183460469231731687303715884105727u128 {
                return Err(PoolError::MathError);
            }
            if delta_a > mint_cap_u128 as i128 {
                return Err(PoolError::SwapReduceOnly);
            }
            return Ok(
                Rebalance { action: RebalanceAction::CappedMint, delta_a, new_reserve_a: reserve_a },
            );
        }
        return Ok(
            Rebalance {
                action: RebalanceAction::Mint,
                delta_a,
                new_reserve_a: reserve_a + (delta_a as u128),
            },
        );
    }
    let burned: u128 = (-delta_a) as u128;
    Ok(Rebalance { action: RebalanceAction::Burn, delta_a, new_reserve_a: reserve_a - burned })
}

/// The rounded target never falls below `lo` when the exact quotient reaches it, and never
/// rises above `hi` when the exact quotient stays within it.
proof fn lemma_round_div_bounds(n: int, y: int, lo: int, hi: int)
    requires
        y > 0,
        n >= 0,
    ensures
        n >= lo * y ==> round_div(n, y) >= lo,
        n <= hi * y ==> round_div(n, y) <= hi,
{
    if n >= lo * y {
        assert(2 * n + y >= lo * (2 * y)) by (nonlinear_arith)
            requires
                n >= lo * y,
                y > 0,
        ;
        vstd::arithmetic::div_mod::lemma_div_is_ordered(lo * (2 * y), 2 * n + y, 2 * y);
        vstd::arithmetic::div_mod::lemma_div_multiples_vanish(lo, 2 * y);
    }
    if n <= hi * y {
        assert(2 * n + y < (hi + 1) * (2 * y)) by (nonlinear_arith)
            requires
                n <= hi * y,
                y > 0,
        ;
        vstd::arithmetic::div_mod::lemma_fundamental_div_mod(2 * n + y, 2 * y);
        let q = (2 * n + y) / (2 * y);
        let r = (2 * n + y) % (2 * y);
        assert(q <= hi) by (nonlinear_arith)
            requires
                2 * n + y == (2 * y) * q + r,
                r >= 0,
                2 * n + y < (hi + 1) * (2 * y),
                y > 0,
        ;
    }
}

/// The re-peg moves reserve A toward the oracle peg, priced as the base asset over the quote
/// asset. Where reserve B bought at that price covers reserve A
/// (`reserve_b * quote >= reserve_a * base`), nothing is burned; where it falls short of
/// reserve A by a margin beyond the peg's rounding
/// (`reserve_b * quote * P + reserve_a * quote <= reserve_a * base * P`), nothing is minted.
/// Either way no more than a twentieth of reserve A moves.
pub proof fn lemma_repeg_moves_toward_the_peg(
    reserve_a: u128,
    reserve_b: u128,
    base_oracle_price: u128,
    quote_oracle_price: u128,
)
    requires
        quote_oracle_price > 0,
        peg_price_spec(base_oracle_price, quote_oracle_price) > 0,
    ensures
        delta_a_spec(reserve_a, reserve_b, base_oracle_price, quote_oracle_price) matches Ok(d) ==> {
            &&& reserve_b * quote_oracle_price >= reserve_a * base_oracle_price ==> d >= 0
            &&& reserve_b * quote_oracle_price * PRICE_PRECISION + reserve_a * quote_oracle_price
                <= reserve_a * base_oracle_price * PRICE_PRECISION ==> d <= 0
            &&& -(reserve_a as int / 20) <= d <= reserve_a as int / 20
        },
{
    let p = PRICE_PRECISION as int;
    let a = reserve_a as int;
    let b = reserve_b as int;
    let base = base_oracle_price as int;
    let quote = quote_oracle_price as int;
    let peg = peg_price_spec(base_oracle_price, quote_oracle_price);
    let n = b * p;
    vstd::arithmetic::div_mod::lemma_fundamental_div_mod(base * p, quote);
    let rem = (base * p) % quote;
    assert(quote * peg + rem == base * p);
    assert(0 <= rem < quote);
    assert(n >= 0) by (nonlinear_arith)
        requires
            n == b * p,
            b >= 0,
            p >= 0,
    ;
    if b * quote >= a * base {
        assert(n >= a * peg) by (nonlinear_arith)
            requires
                b * quote >= a * base,
                quote * peg + rem == base * p,
                rem >= 0,
                a >= 0,
                p > 0,
                quote > 0,
                n == b * p,
        ;
        lemma_round_div_bounds(n, peg, a, a);
    }
    if b * quote * p + a * quote <= a * base * p {
        assert(n <= a * peg) by (nonlinear_arith)
            requires
                b * quote * p + a * quote <= a * base * p,
                quote * peg + rem == base * p,
                rem < quote,
                a >= 0,
                quote > 0,
                n == b * p,
        ;
        lemma_round_div_bounds(n, peg, a, a);
    }
}

} // verus!
