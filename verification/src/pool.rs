use vstd::prelude::*;
use crate::constants::FEE_MULTIPLIER;
use crate::constants::PRICE_PRECISION;
use crate::fixed_point::ceil_div;
use crate::fixed_point::fixed_div_floor_u128;
use crate::fixed_point::soroban_div_floor_u128;
use crate::fixed_point::soroban_mul_ceil_u128;
use crate::fixed_point::soroban_mul_floor_u128;

verus! {

/// Errors raised by the liquidity pools.
#[derive(Clone, Copy, Debug, PartialEq, Eq, Structural)]
pub enum PoolError {
    InsufficientBalance,
    ArithmeticOverflow,
    SwapReduceOnly,
    MathError,
}

/// Risk tier of a pool, which sets its oracle tolerances.
#[derive(Clone, Copy, Debug, PartialEq, Eq, Structural)]
pub enum PoolTier {
    A,
    B,
    C,
    Speculative,
    HighlySpeculative,
    Isolated,
}

/// A liquidity pool between a synthetic asset (token A) and a quote token (token B).
pub struct Pool {
    pub token_a: soroban_sdk::Address,
    pub token_b: soroban_sdk::Address,
    pub tier: PoolTier,
    pub fee_fraction: u32,
    pub expiry_ts: u64,
    pub expiry_price: u128,
}

/// Swap output before fees: `floor(in * reserve_buy / (reserve_sell + in))`.
pub open spec fn gross_amount_out(in_amount: u128, reserve_sell: u128, reserve_buy: u128) -> int {
    (in_amount * reserve_buy) / ((reserve_sell + in_amount) as int)
}

/// The pool's fee on a gross output, rounded up.
pub open spec fn swap_fee(gross: int, fee_fraction: u32) -> int {
    ceil_div(gross * fee_fraction, FEE_MULTIPLIER as int)
}

impl Pool {
    /// How many confidence intervals the pool's tier tolerates.
    pub fn get_max_confidence_interval_multiplier(&self) -> (r: u64)
        ensures
            r == (match self.tier {
                PoolTier::A => 1u64,
                PoolTier::B => 1,
                PoolTier::C => 2,
                PoolTier::Speculative => 10,
                PoolTier::HighlySpeculative => 50,
                PoolTier::Isolated => 50,
            }),
    {
        match self.tier {
            PoolTier::A => 1,
            PoolTier::B => 1,
            PoolTier::C => 2,
            PoolTier::Speculative => 10,
            PoolTier::HighlySpeculative => 50,
            PoolTier::Isolated => 50,
        }
    }

    /// The band denominator used to sanitize oracle updates for the pool's tier; none for the
    /// speculative tiers, which use the registry default.
    pub fn get_sanitize_clamp_denominator(&self) -> (r: Option<i64>)
        ensures
            r == (match self.tier {
                PoolTier::A => Some(10i64),
                PoolTier::B => Some(5i64),
                PoolTier::C => Some(2i64),
                _ => None,
            }),
    {
        match self.tier {
            PoolTier::A => Some(10),
            PoolTier::B => Some(5),
            PoolTier::C => Some(2),
            PoolTier::Speculative => None,
            PoolTier::HighlySpeculative => None,
            PoolTier::Isolated => None,
        }
    }

    /// A constant-product swap of `in_amount`: the output net of the pool's fee, and the fee.
    pub fn get_amount_out(
        &self,
        e: &soroban_sdk::Env,
        in_amount: u128,
        reserve_sell: u128,
        reserve_buy: u128,
    ) -> (r: (u128, u128))
        requires
            in_amount > 0 ==> reserve_sell + in_amount <= u128::MAX,
            in_amount > 0 ==> swap_fee(
                gross_amount_out(in_amount, reserve_sell, reserve_buy),
                self.fee_fraction,
            ) <= gross_amount_out(in_amount, reserve_sell, reserve_buy),
        ensures
            in_amount == 0 ==> r == (0u128, 0u128),
            in_amount > 0 ==> r.1 == swap_fee(
                gross_amount_out(in_amount, reserve_sell, reserve_buy),
                self.fee_fraction,
            ) && r.0 + r.1 == gross_amount_out(in_amount, reserve_sell, reserve_buy),
            in_amount > 0 && reserve_sell > 0 && reserve_buy > 0 ==> r.0 + r.1 < reserve_buy,
    {
        if in_amount == 0 {
            return (0, 0);
        }
        proof {
            crate::stake::lemma_pro_rata_le(
                reserve_buy as int,
                in_amount as int,
                (reserve_sell + in_amount) as int,
            );
            if reserve_sell > 0 && reserve_buy > 0 {
                lemma_swap_output_below_reserve(in_amount as int, reserve_sell as int, reserve_buy as int);
            }
        }
        let result = soroban_mul_floor_u128(e, in_amount, reserve_buy, reserve_sell + in_amount);
        proof {
            assert(in_amount * reserve_buy == reserve_buy * in_amount) by (nonlinear_arith);
        }
        let fee = soroban_mul_ceil_u128(e, result, self.fee_fraction as u128, FEE_MULTIPLIER);
        (result - fee, fee)
    }

    /// The input needed to receive exactly `out_amount`, and the fee included in it;
    /// `InsufficientBalance` when the output with its fee would reach the buy reserve.
    pub fn get_amount_out_strict_receive(
        &self,
        e: &soroban_sdk::Env,
        out_amount: u128,
        reserve_sell: u128,
        reserve_buy: u128,
    ) -> (r: Result<(u128, u128), PoolError>)
        requires
            out_amount > 0 ==> self.fee_fraction < FEE_MULTIPLIER,
            out_amount > 0 ==> ceil_div(
                out_amount * FEE_MULTIPLIER,
                FEE_MULTIPLIER - self.fee_fraction,
            ) <= u128::MAX,
            out_amount > 0 && ceil_div(out_amount * FEE_MULTIPLIER, FEE_MULTIPLIER - self.fee_fraction)
                < reserve_buy ==> ({
                let q = (reserve_buy * reserve_sell) / (reserve_buy - ceil_div(
                    out_amount * FEE_MULTIPLIER,
                    FEE_MULTIPLIER - self.fee_fraction,
                ));
                q <= u128::MAX && q - reserve_sell + 1 <= u128::MAX
            }),
        ensures
            out_amount == 0 ==> r == Ok::<(u128, u128), PoolError>((0u128, 0u128)),
            out_amount > 0 ==> ({
                let with_fee = ceil_div(
                    out_amount * FEE_MULTIPLIER,
                    FEE_MULTIPLIER - self.fee_fraction,
                );
                &&& with_fee >= reserve_buy ==> r == Err::<(u128, u128), PoolError>(
                    PoolError::InsufficientBalance,
                )
                &&& with_fee < reserve_buy ==> (r matches Ok(v) && v.0 == (reserve_buy
                    * reserve_sell) / (reserve_buy - with_fee) - reserve_sell + 1 && v.1 == with_fee
                    - out_amount)
            }),
    {
        if out_amount == 0 {
            return Ok((0, 0));
        }
        let dy_w_fee = soroban_mul_ceil_u128(
            e,
            out_amount,
            FEE_MULTIPLIER,
            FEE_MULTIPLIER - (self.fee_fraction as u128),
        );
        if dy_w_fee >= reserve_buy {
            return Err(PoolError::InsufficientBalance);
        }
        proof {
            lemma_strict_receive_bounds(
                out_amount as int,
                self.fee_fraction as int,
                dy_w_fee as int,
                reserve_sell as int,
                reserve_buy as int,
            );
        }
        let scaled = soroban_mul_floor_u128(e, reserve_buy, reserve_sell, reserve_buy - dy_w_fee);
        let result = scaled - reserve_sell + 1;
        Ok((result, dy_w_fee - out_amount))
    }

    /// The pool price from its reserves in price precision: token A in token B when `a_in_b`,
    /// else token B in token A; converted to dollars with the oracle price of the other side
    /// when `in_usd`. Zero while either reserve is empty.
    pub fn get_current_price(
        &self,
        e: &soroban_sdk::Env,
        reserve_a: u128,
        reserve_b: u128,
        a_in_b: bool,
        in_usd: bool,
        oracle_price: u128,
    ) -> (r: u128)
        requires
            reserve_a != 0 && reserve_b != 0 && in_usd ==> ((if a_in_b {
                reserve_b * PRICE_PRECISION
            } else {
                reserve_a * PRICE_PRECISION
            }) / (if a_in_b {
                reserve_a as int
            } else {
                reserve_b as int
            })) * oracle_price / (PRICE_PRECISION as int) <= u128::MAX,
            reserve_a != 0 && reserve_b != 0 ==> (if a_in_b {
                reserve_b * PRICE_PRECISION
            } else {
                reserve_a * PRICE_PRECISION
            }) / (if a_in_b {
                reserve_a as int
            } else {
                reserve_b as int
            }) <= u128::MAX,
        ensures
            ({
                let raw = (if a_in_b {
                    reserve_b * PRICE_PRECISION
                } else {
                    reserve_a * PRICE_PRECISION
                }) / (if a_in_b {
                    reserve_a as int
                } else {
                    reserve_b as int
                });
                r == (if reserve_a == 0 || reserve_b == 0 {
                    0
                } else if in_usd {
                    (raw * oracle_price) / (PRICE_PRECISION as int)
                } else {
                    raw
                })
            }),
    {
        if reserve_a == 0 || reserve_b == 0 {
            return 0;
        }
        let price = if a_in_b {
            soroban_div_floor_u128(e, reserve_b, reserve_a, PRICE_PRECISION)
        } else {
            soroban_div_floor_u128(e, reserve_a, reserve_b, PRICE_PRECISION)
        };
        if in_usd {
            soroban_mul_floor_u128(e, price, oracle_price, PRICE_PRECISION)
        } else {
            price
        }
    }
}

/// Two's-complement reinterpretation of a `u128` as an `i128` (`x as i128`).
pub open spec fn u128_as_i128(x: u128) -> int {
    if x <= i128::MAX {
        x as int
    } else {
        x - 0x1_0000_0000_0000_0000_0000_0000_0000_0000int
    }
}

fn u128_to_i128_wrapping(x: u128) -> (r: i128)
    ensures
        r == u128_as_i128(x),
{
    if x <= 170141183460469231731687303715884105727u128 {
        x as i128
    } else {
        let low: u128 = x - 170141183460469231731687303715884105728u128;
        (low as i128) + i128::MIN
    }
}

/// The reserve A that prices the pool at `target_price`: reserve B over the target price, in
/// price precision.
pub open spec fn target_reserve_a_spec(reserve_b: u128, target_price: u128) -> int {
    (reserve_b * PRICE_PRECISION) / (target_price as int)
}

/// The change of reserve A that brings the pool to the target price (both reserves read as
/// `i128`).
pub open spec fn pool_delta_a_spec(reserve_a: u128, reserve_b: u128, target_price: u128) -> int {
    u128_as_i128(target_reserve_a_spec(reserve_b, target_price) as u128) - u128_as_i128(reserve_a)
}

impl Pool {
    /// The change of reserve A that puts the pool on the oracle target price.
    pub fn get_delta_a(
        &self,
        e: &soroban_sdk::Env,
        reserve_a: u128,
        reserve_b: u128,
        target_price: u128,
    ) -> (r: i128)
        requires
            target_price != 0,
            target_reserve_a_spec(reserve_b, target_price) <= u128::MAX,
            i128::MIN <= pool_delta_a_spec(reserve_a, reserve_b, target_price) <= i128::MAX,
        ensures
            r == pool_delta_a_spec(reserve_a, reserve_b, target_price),
    {
        let target_reserve_a = soroban_div_floor_u128(e, reserve_b, target_price, PRICE_PRECISION);
        u128_to_i128_wrapping(target_reserve_a) - u128_to_i128_wrapping(reserve_a)
    }

    /// Mints (positive delta) or burns (negative delta) synthetic tokens in reserve A to bring
    /// the pool to the oracle target price: the delta and the new reserve A.
    pub fn rebalance(
        &self,
        e: &soroban_sdk::Env,
        reserve_a: u128,
        reserve_b: u128,
        target_price: u128,
    ) -> (r: (i128, u128))
        requires
            target_price != 0,
            target_reserve_a_spec(reserve_b, target_price) <= u128::MAX,
            i128::MIN < pool_delta_a_spec(reserve_a, reserve_b, target_price) <= i128::MAX,
            0 <= reserve_a + pool_delta_a_spec(reserve_a, reserve_b, target_price) <= u128::MAX,
        ensures
            r.0 == pool_delta_a_spec(reserve_a, reserve_b, target_price),
            r.1 == reserve_a + r.0,
    {
        let delta_a = self.get_delta_a(e, reserve_a, reserve_b, target_price);
        let mut new_reserve_a = reserve_a;
        if delta_a > 0 {
            new_reserve_a = reserve_a + (delta_a as u128);
        }
        if delta_a < 0 {
            new_reserve_a = reserve_a - ((-delta_a) as u128);
        }
        (delta_a, new_reserve_a)
    }
}

/// The swap output with its fee stays below the buy reserve when both reserves are funded.
pub proof fn lemma_swap_output_below_reserve(in_amount: int, reserve_sell: int, reserve_buy: int)
    requires
        in_amount > 0,
        reserve_sell > 0,
        reserve_buy > 0,
    ensures
        (in_amount * reserve_buy) / (reserve_sell + in_amount) < reserve_buy,
{
    let d = reserve_sell + in_amount;
    assert(in_amount * reserve_buy < reserve_buy * d) by (nonlinear_arith)
        requires
            d == reserve_sell + in_amount,
            reserve_sell > 0,
            reserve_buy > 0,
    ;
    vstd::arithmetic::div_mod::lemma_fundamental_div_mod(in_amount * reserve_buy, d);
    let q = (in_amount * reserve_buy) / d;
    assert(q < reserve_buy) by (nonlinear_arith)
        requires
            in_amount * reserve_buy == d * q + (in_amount * reserve_buy) % d,
            (in_amount * reserve_buy) % d >= 0,
            in_amount * reserve_buy < reserve_buy * d,
            d > 0,
    ;
}

/// In a strict-receive quote the scaled reserve covers the sell reserve, and the output with
/// fee covers the output.
pub proof fn lemma_strict_receive_bounds(
    out_amount: int,
    fee_fraction: int,
    with_fee: int,
    reserve_sell: int,
    reserve_buy: int,
)
    requires
        out_amount > 0,
        0 <= fee_fraction < FEE_MULTIPLIER,
        with_fee == ceil_div(out_amount * FEE_MULTIPLIER, FEE_MULTIPLIER - fee_fraction),
        0 <= with_fee < reserve_buy,
        reserve_sell >= 0,
    ensures
        (reserve_buy * reserve_sell) / (reserve_buy - with_fee) >= reserve_sell,
        with_fee >= out_amount,
{
    let d = reserve_buy - with_fee;
    assert(reserve_buy * reserve_sell >= reserve_sell * d) by (nonlinear_arith)
        requires
            0 < d <= reserve_buy,
            reserve_sell >= 0,
    ;
    vstd::arithmetic::div_mod::lemma_div_is_ordered(reserve_sell * d, reserve_buy * reserve_sell, d);
    vstd::arithmetic::div_mod::lemma_div_multiples_vanish(reserve_sell, d);
    assert(reserve_sell * d == d * reserve_sell) by (nonlinear_arith);
    let k = FEE_MULTIPLIER - fee_fraction;
    assert(out_amount * FEE_MULTIPLIER + k - 1 >= out_amount * k) by (nonlinear_arith)
        requires
            0 < k <= FEE_MULTIPLIER,
            out_amount > 0,
    ;
    vstd::arithmetic::div_mod::lemma_div_is_ordered(out_amount * k, out_amount * FEE_MULTIPLIER + k - 1, k);
    vstd::arithmetic::div_mod::lemma_div_multiples_vanish(out_amount, k);
    assert(out_amount * k == k * out_amount) by (nonlinear_arith);
}

/// The oracle target price of the synthetic asset: the quote price over the base price in price
/// precision, zero when either price is missing.
pub fn get_target_oracle_price(base_oracle_price: u128, quote_oracle_price: u128) -> (r: u128)
    requires
        base_oracle_price != 0 ==> quote_oracle_price * PRICE_PRECISION <= u128::MAX,
    ensures
        r == (if base_oracle_price == 0 || quote_oracle_price == 0 {
            0
        } else {
            (quote_oracle_price * PRICE_PRECISION) / (base_oracle_price as int)
        }),
{
    if base_oracle_price == 0 || quote_oracle_price == 0 {
        return 0;
    }
    match fixed_div_floor_u128(quote_oracle_price, base_oracle_price, PRICE_PRECISION) {
        Some(p) => p,
        None => 0,
    }
}

} // verus!
