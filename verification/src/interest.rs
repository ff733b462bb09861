use vstd::prelude::*;
use crate::constants::FULL_UTILIZATION_BPS;
use crate::constants::PERCENTAGE_PRECISION;
use crate::fixed_point::fixed_mul_floor_i64;
use crate::fixed_point::floor_div;
use crate::fixed_point::soroban_div_floor_u128;
use crate::insurance_errors::InsuranceFundError;
use crate::oracle_types::OracleValidity;

verus! {

/// Utilization: the reserve value as a fraction of the optimal insurance, in percentage
/// precision, held at `u32::MAX`; zero when either input is zero.
pub open spec fn utilization_spec(total_reserve_value: u128, optimal_insurance: u128) -> int {
    if total_reserve_value == 0 || optimal_insurance == 0 {
        0
    } else {
        let u = (total_reserve_value * PERCENTAGE_PRECISION) / (optimal_insurance as int);
        if u > u32::MAX {
            u32::MAX as int
        } else {
            u
        }
    }
}

/// Calculates the utilization of the insurance fund (100% is `PERCENTAGE_PRECISION`).
pub fn calculate_utilization(
    e: &soroban_sdk::Env,
    total_reserve_value: u128,
    optimal_insurance: u128,
) -> (r: u32)
    ensures
        r == utilization_spec(total_reserve_value, optimal_insurance),
{
    if total_reserve_value == 0 || optimal_insurance == 0 {
        return 0;
    }
    // From 430 times the optimal insurance on, the utilization is above `u32::MAX`.
    if total_reserve_value / optimal_insurance >= 430 {
        proof {
            let q = total_reserve_value as int / optimal_insurance as int;
            vstd::arithmetic::div_mod::lemma_fundamental_div_mod(
                total_reserve_value as int,
                optimal_insurance as int,
            );
            assert(total_reserve_value * PERCENTAGE_PRECISION >= (430 * PERCENTAGE_PRECISION)
                * optimal_insurance) by (nonlinear_arith)
                requires
                    total_reserve_value >= optimal_insurance * q,
                    q >= 430,
                    optimal_insurance > 0,
            ;
            vstd::arithmetic::div_mod::lemma_div_is_ordered(
                (430 * PERCENTAGE_PRECISION) * optimal_insurance,
                total_reserve_value * PERCENTAGE_PRECISION,
                optimal_insurance as int,
            );
            vstd::arithmetic::div_mod::lemma_div_multiples_vanish(
                (430 * PERCENTAGE_PRECISION) as int,
                optimal_insurance as int,
            );
            assert((430 * PERCENTAGE_PRECISION) * optimal_insurance == optimal_insurance * (430
                * PERCENTAGE_PRECISION)) by (nonlinear_arith);
        }
        return u32::MAX;
    }
    proof {
        let q = total_reserve_value as int / optimal_insurance as int;
        vstd::arithmetic::div_mod::lemma_fundamental_div_mod(
            total_reserve_value as int,
            optimal_insurance as int,
        );
        assert(total_reserve_value * PERCENTAGE_PRECISION < (430 * PERCENTAGE_PRECISION)
            * optimal_insurance) by (nonlinear_arith)
            requires
                total_reserve_value == optimal_insurance * q + total_reserve_value as int
                    % optimal_insurance as int,
                (total_reserve_value as int % optimal_insurance as int) < optimal_insurance,
                q < 430,
                optimal_insurance > 0,
        ;
        assert((total_reserve_value * PERCENTAGE_PRECISION) / (optimal_insurance as int) < 430
            * PERCENTAGE_PRECISION) by (nonlinear_arith)
            requires
                total_reserve_value * PERCENTAGE_PRECISION < (430 * PERCENTAGE_PRECISION)
                    * optimal_insurance,
                optimal_insurance > 0,
        {
            crate::math::lemma_div_between(
                total_reserve_value * PERCENTAGE_PRECISION,
                optimal_insurance as int,
                0,
                430 * PERCENTAGE_PRECISION,
            );
        }
    }
    let utilization = soroban_div_floor_u128(
        e,
        total_reserve_value,
        optimal_insurance,
        PERCENTAGE_PRECISION,
    );
    if utilization > u32::MAX as u128 {
        u32::MAX
    } else {
        utilization as u32
    }
}

/// The two-slope interest rate, with utilization and optimum in basis points (the rate keeps the
/// scale of `base_rate` and the slopes): the base rate at zero utilization, whatever the
/// optimum, as long as it is positive; up to the
/// optimal utilization the base plus `slope1` scaled by `utilization / optimal`; beyond it the
/// base plus `slope1` plus `slope2` scaled by the excess over the room left to full utilization
/// (10 000). A zero optimal utilization is an `InvalidConfiguration`; so is, at a positive
/// utilization, an optimum above full utilization or one at exactly full utilization reached
/// from above; intermediate results that leave an `i64` are an
/// `ArithmeticOverflow`, and a rate that leaves an `i32` a `ConversionOverflow`.
pub open spec fn rate_spec(
    utilization: u32,
    optimal_utilization: u32,
    base_rate: i32,
    slope1: u32,
    slope2: u32,
) -> Result<int, InsuranceFundError> {
    if optimal_utilization == 0 {
        Err(InsuranceFundError::InvalidConfiguration)
    } else if utilization == 0 {
        Ok(base_rate as int)
    } else if optimal_utilization > FULL_UTILIZATION_BPS {
        Err(InsuranceFundError::InvalidConfiguration)
    } else if utilization <= optimal_utilization {
        let rate = base_rate + (utilization * slope1) / (optimal_utilization as int);
        if i32::MIN <= rate <= i32::MAX {
            Ok(rate)
        } else {
            Err(InsuranceFundError::ConversionOverflow)
        }
    } else {
        let excess = utilization - optimal_utilization;
        let remaining = FULL_UTILIZATION_BPS - optimal_utilization;
        if remaining == 0 {
            Err(InsuranceFundError::InvalidConfiguration)
        } else {
            let part = floor_div(excess * slope2, remaining);
            let rate = base_rate + slope1 + part;
            if !(i64::MIN <= part <= i64::MAX) || !(i64::MIN <= rate <= i64::MAX) {
                Err(InsuranceFundError::ArithmeticOverflow)
            } else if i32::MIN <= rate <= i32::MAX {
                Ok(rate)
            } else {
                Err(InsuranceFundError::ConversionOverflow)
            }
        }
    }
}

/// Calculates the staking interest rate from utilization with a two-slope model.
pub fn calculate_rate(
    utilization: u32,
    optimal_utilization: u32,
    base_rate: i32,
    slope1: u32,
    slope2: u32,
) -> (r: Result<i32, InsuranceFundError>)
    ensures
        r matches Ok(v) ==> rate_spec(utilization, optimal_utilization, base_rate, slope1, slope2)
            == Ok::<int, InsuranceFundError>(v as int),
        r matches Err(e) ==> rate_spec(utilization, optimal_utilization, base_rate, slope1, slope2)
            == Err::<int, InsuranceFundError>(e),
{
    if optimal_utilization == 0 {
        return Err(InsuranceFundError::InvalidConfiguration);
    }
    if utilization == 0 {
        return Ok(base_rate);
    }
    if optimal_utilization as i64 > FULL_UTILIZATION_BPS {
        return Err(InsuranceFundError::InvalidConfiguration);
    }
    let utilization_i64 = utilization as i64;
    let optimal_utilization_i64 = optimal_utilization as i64;
    let base_rate_i64 = base_rate as i64;
    let slope1_i64 = slope1 as i64;
    let slope2_i64 = slope2 as i64;
    let rate_i64: i64 = if utilization_i64 <= optimal_utilization_i64 {
        proof {
            assert(0 <= (utilization * slope1) / (optimal_utilization as int) <= slope1) by {
                assert(0 <= utilization * slope1 <= slope1 * optimal_utilization) by (
                nonlinear_arith)
                    requires
                        0 <= utilization <= optimal_utilization,
                        slope1 >= 0,
                ;
                crate::math::lemma_div_between(
                    utilization * slope1,
                    optimal_utilization as int,
                    0,
                    slope1 as int,
                );
            }
        }
        let variable_rate = match fixed_mul_floor_i64(
            utilization_i64,
            slope1_i64,
            optimal_utilization_i64,
        ) {
            Some(v) => v,
            None => {
                return Err(InsuranceFundError::ArithmeticOverflow);
            },
        };
        base_rate_i64 + variable_rate
    } else {
        let excess_util = utilization_i64 - optimal_utilization_i64;
        let remaining = FULL_UTILIZATION_BPS - optimal_utilization_i64;
        if remaining == 0 {
            return Err(InsuranceFundError::InvalidConfiguration);
        }
        let slope2_part = match fixed_mul_floor_i64(excess_util, slope2_i64, remaining) {
            Some(v) => v,
            None => {
                return Err(InsuranceFundError::ArithmeticOverflow);
            },
        };
        let intermediate = base_rate_i64 + slope1_i64;
        match intermediate.checked_add(slope2_part) {
            Some(v) => v,
            None => {
                return Err(InsuranceFundError::ArithmeticOverflow);
            },
        }
    };
    if rate_i64 < i32::MIN as i64 || rate_i64 > i32::MAX as i64 {
        return Err(InsuranceFundError::ConversionOverflow);
    }
    Ok(rate_i64 as i32)
}

/// Wherever the rate is defined, it never falls as utilization rises.
pub proof fn lemma_rate_monotone(
    u1: u32,
    u2: u32,
    optimal_utilization: u32,
    base_rate: i32,
    slope1: u32,
    slope2: u32,
)
    requires
        u1 <= u2,
        rate_spec(u1, optimal_utilization, base_rate, slope1, slope2) is Ok,
        rate_spec(u2, optimal_utilization, base_rate, slope1, slope2) is Ok,
    ensures
        rate_spec(u1, optimal_utilization, base_rate, slope1, slope2)->Ok_0 <= rate_spec(
            u2,
            optimal_utilization,
            base_rate,
            slope1,
            slope2,
        )->Ok_0,
{
    let opt = optimal_utilization as int;
    let remaining = FULL_UTILIZATION_BPS - opt;
    if (u1 as int) <= opt {
        lemma_variable_part_bounds(u1 as int, opt, slope1 as int);
    }
    if (u2 as int) <= opt {
        lemma_variable_part_bounds(u2 as int, opt, slope1 as int);
    }
    if (u1 as int) <= opt && (u2 as int) <= opt {
        assert(u1 * slope1 <= u2 * slope1) by (nonlinear_arith)
            requires
                u1 <= u2,
                slope1 >= 0,
        ;
        vstd::arithmetic::div_mod::lemma_div_is_ordered(u1 * slope1, u2 * slope1, opt);
    } else if (u1 as int) > opt && (u2 as int) > opt {
        assert((u1 - opt) * slope2 <= (u2 - opt) * slope2) by (nonlinear_arith)
            requires
                u1 <= u2,
                slope2 >= 0,
        ;
        vstd::arithmetic::div_mod::lemma_div_is_ordered(
            (u1 - opt) * slope2,
            (u2 - opt) * slope2,
            remaining,
        );
    } else {
        // u1 sits at or below the optimum, u2 above it: the excess part is non-negative.
        assert((u2 - opt) * slope2 >= 0) by (nonlinear_arith)
            requires
                u2 > opt,
                slope2 >= 0,
        ;
        vstd::arithmetic::div_mod::lemma_div_pos_is_pos((u2 - opt) * slope2, remaining);
    }
}

/// At a valid optimal utilization the rate is exactly the base rate plus the first slope.
pub proof fn lemma_rate_at_optimum(optimal_utilization: u32, base_rate: i32, slope1: u32, slope2: u32)
    requires
        0 < optimal_utilization <= FULL_UTILIZATION_BPS,
        i32::MIN <= base_rate + slope1 <= i32::MAX,
    ensures
        rate_spec(optimal_utilization, optimal_utilization, base_rate, slope1, slope2)
            == Ok::<int, InsuranceFundError>(base_rate + slope1),
{
    assert((optimal_utilization * slope1) / (optimal_utilization as int) == slope1 as int) by {
        assert(optimal_utilization * slope1 == slope1 * optimal_utilization) by (nonlinear_arith);
        vstd::arithmetic::div_mod::lemma_div_multiples_vanish(
            slope1 as int,
            optimal_utilization as int,
        );
    }
}

/// Utilization never falls as the reserve value grows against the same optimal insurance.
pub proof fn lemma_utilization_monotone(v1: u128, v2: u128, optimal_insurance: u128)
    requires
        v1 <= v2,
    ensures
        utilization_spec(v1, optimal_insurance) <= utilization_spec(v2, optimal_insurance),
{
    if v1 != 0 && optimal_insurance != 0 {
        assert(v1 * PERCENTAGE_PRECISION <= v2 * PERCENTAGE_PRECISION) by (nonlinear_arith)
            requires
                v1 <= v2,
        ;
        vstd::arithmetic::div_mod::lemma_div_is_ordered(
            v1 * PERCENTAGE_PRECISION,
            v2 * PERCENTAGE_PRECISION,
            optimal_insurance as int,
        );
    } else if optimal_insurance != 0 && v2 != 0 {
        assert(v2 * PERCENTAGE_PRECISION >= 0) by (nonlinear_arith);
        vstd::arithmetic::div_mod::lemma_div_pos_is_pos(
            v2 * PERCENTAGE_PRECISION,
            optimal_insurance as int,
        );
    }
}

/// Below the optimum the variable part of the rate lies between zero and `slope1`.
pub proof fn lemma_variable_part_bounds(u: int, opt: int, slope1: int)
    requires
        0 <= u <= opt,
        opt > 0,
        slope1 >= 0,
    ensures
        0 <= (u * slope1) / opt <= slope1,
{
    assert(0 <= u * slope1 <= slope1 * opt) by (nonlinear_arith)
        requires
            0 <= u <= opt,
            slope1 >= 0,
    ;
    crate::math::lemma_div_between(u * slope1, opt, 0, slope1);
}

/// One whitelisted token's contribution to the fund's value: its reserve balance, the oracle's
/// average price, and the oracle's validity.
#[derive(Clone, Copy, Debug, PartialEq, Eq, Structural)]
pub struct ReserveValuation {
    pub balance: u128,
    pub last_oracle_price_twap: u128,
    pub oracle_validity: OracleValidity,
}

/// Sum of `balance * price` over the tokens in order; `InvalidOracle` at the first token whose
/// oracle is not valid, `MathError` at the first overflow.
pub open spec fn total_value_spec(valuations: Seq<ReserveValuation>) -> Result<
    int,
    InsuranceFundError,
>
    decreases valuations.len(),
{
    if valuations.len() == 0 {
        Ok(0)
    } else {
        match total_value_spec(valuations.drop_last()) {
            Err(e) => Err(e),
            Ok(acc) => {
                let v = valuations.last();
                let value = v.balance * v.last_oracle_price_twap;
                if v.oracle_validity != OracleValidity::Valid {
                    Err(InsuranceFundError::InvalidOracle)
                } else if value > u128::MAX || acc + value > u128::MAX {
                    Err(InsuranceFundError::MathError)
                } else {
                    Ok(acc + value)
                }
            },
        }
    }
}

/// Total value of the fund's reserves across its whitelisted tokens, priced by each token's
/// oracle average.
pub fn calculate_total_reserve_value(valuations: &Vec<ReserveValuation>) -> (r: Result<
    u128,
    InsuranceFundError,
>)
    ensures
        r matches Ok(v) ==> total_value_spec(valuations@) == Ok::<int, InsuranceFundError>(
            v as int,
        ),
        r matches Err(e) ==> total_value_spec(valuations@) == Err::<int, InsuranceFundError>(e),
{
    let mut total_reserve_value: u128 = 0;
    let mut i: usize = 0;
    while i < valuations.len()
        invariant
            i <= valuations@.len(),
            total_value_spec(valuations@.take(i as int)) == Ok::<int, InsuranceFundError>(
                total_reserve_value as int,
            ),
        decreases valuations@.len() - i,
    {
        let v = valuations[i];
        assert(valuations@.take(i + 1).drop_last() =~= valuations@.take(i as int));
        assert(valuations@.take(i + 1).last() == v);
        if v.oracle_validity != OracleValidity::Valid {
            proof {
                lemma_total_value_err_sticks(valuations@, (i + 1) as int);
            }
            return Err(InsuranceFundError::InvalidOracle);
        }
        let reserve_value = match v.balance.checked_mul(v.last_oracle_price_twap) {
            Some(x) => x,
            None => {
                proof {
                    lemma_total_value_err_sticks(valuations@, (i + 1) as int);
                }
                return Err(InsuranceFundError::MathError);
            },
        };
        total_reserve_value = match total_reserve_value.checked_add(reserve_value) {
            Some(x) => x,
            None => {
                proof {
                    lemma_total_value_err_sticks(valuations@, (i + 1) as int);
                }
                return Err(InsuranceFundError::MathError);
            },
        };
        i = i + 1;
    }
    assert(valuations@.take(valuations@.len() as int) =~= valuations@);
    Ok(total_reserve_value)
}

/// Once a prefix of the valuations fails, every longer prefix fails the same way.
pub proof fn lemma_total_value_err_sticks(valuations: Seq<ReserveValuation>, k: int)
    requires
        0 <= k <= valuations.len(),
        total_value_spec(valuations.take(k)) is Err,
    ensures
        total_value_spec(valuations) == total_value_spec(valuations.take(k)),
    decreases valuations.len() - k,
{
    if k < valuations.len() {
        assert(valuations.take(k + 1).drop_last() =~= valuations.take(k));
        lemma_total_value_err_sticks(valuations, k + 1);
    } else {
        assert(valuations.take(k) =~= valuations);
    }
}

/// The reserves are valued only on valid oracles: a valuation that succeeds had a valid oracle
/// for every token.
pub proof fn lemma_value_needs_every_oracle_valid(valuations: Seq<ReserveValuation>)
    requires
        total_value_spec(valuations) is Ok,
    ensures
        forall|i: int|
            0 <= i < valuations.len() ==> #[trigger] valuations[i].oracle_validity
                == OracleValidity::Valid,
    decreases valuations.len(),
{
    if valuations.len() > 0 {
        let init = valuations.drop_last();
        lemma_value_needs_every_oracle_valid(init);
        assert forall|i: int| 0 <= i < valuations.len() implies #[trigger] valuations[i].oracle_validity
            == OracleValidity::Valid by {
            if i < valuations.len() - 1 {
                assert(valuations[i] == init[i]);
            }
        }
    }
}

/// The first token whose oracle is not valid stops the valuation with `InvalidOracle`, once
/// the tokens before it have been valued.
pub proof fn lemma_first_invalid_oracle_refuses(valuations: Seq<ReserveValuation>, k: int)
    requires
        0 <= k < valuations.len(),
        valuations[k].oracle_validity != OracleValidity::Valid,
        total_value_spec(valuations.take(k)) is Ok,
    ensures
        total_value_spec(valuations) == Err::<int, InsuranceFundError>(
            InsuranceFundError::InvalidOracle,
        ),
{
    let prefix = valuations.take(k + 1);
    assert(prefix.drop_last() =~= valuations.take(k));
    assert(prefix.last() == valuations[k]);
    assert(total_value_spec(prefix) == Err::<int, InsuranceFundError>(
        InsuranceFundError::InvalidOracle,
    ));
    lemma_total_value_err_sticks(valuations, k + 1);
}

} // verus!
