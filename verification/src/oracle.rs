use vstd::prelude::*;
use crate::constants::FIVE_MINUTE;
use crate::constants::PERCENTAGE_PRECISION_U64;
use crate::constants::PRICE_PRECISION_U64;
use crate::math::calculate_new_twap;
use crate::math::new_twap_spec;
use crate::math::sanitize_new_price;
use crate::math::sanitized_price_spec;
use crate::math::since_last_spec;
use crate::oracle_types::HistoricalOracleData;
use crate::oracle_types::NormalAction;
use crate::oracle_types::OracleGuardRails;
use crate::oracle_types::OraclePriceData;
use crate::oracle_types::OracleRegistryError;
use crate::oracle_types::OracleStatus;
use crate::oracle_types::OracleValidity;

verus! {

/// `2^64`.
pub open spec fn two_pow_64() -> int {
    0x1_0000_0000_0000_0000int
}

/// `2^128`.
pub open spec fn two_pow_128() -> int {
    0x1_0000_0000_0000_0000_0000_0000_0000_0000int
}

/// Two's-complement reinterpretation of an `i64` as a `u128` (`x as u128`).
pub open spec fn i64_as_u128(x: i64) -> int {
    if x >= 0 {
        x as int
    } else {
        x + two_pow_128()
    }
}

/// Two's-complement reinterpretation of an `i128` as a `u128` (`x as u128`).
pub open spec fn i128_as_u128(x: i128) -> int {
    if x >= 0 {
        x as int
    } else {
        x + two_pow_128()
    }
}

/// The low 64 bits of a `u128` (`x as u64`).
pub open spec fn u128_as_u64(x: u128) -> int {
    x as int % two_pow_64()
}

/// Two's-complement reinterpretation of a `u64` as an `i64` (`x as i64`).
pub open spec fn u64_as_i64(x: int) -> int {
    if x <= i64::MAX {
        x
    } else {
        x - two_pow_64()
    }
}

/// Classification of an oracle price: non-positive first, then too volatile (the price and the
/// average differ by a factor of at least the configured ratio), then stale (at least the
/// configured number of seconds old), else valid.
pub open spec fn validity_spec(
    guard_rails: OracleGuardRails,
    last_oracle_twap: u128,
    data: OraclePriceData,
) -> OracleValidity {
    let max_ratio = i64_as_u128(guard_rails.validity.too_volatile_ratio);
    let twap_or_one = if last_oracle_twap >= 1 {
        last_oracle_twap as int
    } else {
        1
    };
    let price_or_one = if data.price >= 1 {
        data.price as int
    } else {
        1
    };
    if data.price == 0 {
        OracleValidity::NonPositive
    } else if data.price as int / twap_or_one >= max_ratio || last_oracle_twap as int / price_or_one
        >= max_ratio {
        OracleValidity::TooVolatile
    } else if data.delay >= guard_rails.validity.seconds_before_stale_for_pool {
        OracleValidity::StaleForPool
    } else {
        OracleValidity::Valid
    }
}

fn i64_to_u128_wrapping(x: i64) -> (r: u128)
    ensures
        r == i64_as_u128(x),
{
    if x >= 0 {
        x as u128
    } else {
        let magnitude_minus_one: i64 = -(x + 1);
        u128::MAX - (magnitude_minus_one as u128)
    }
}

/// Classifies the oracle price against the last time-weighted average and the guard rails.
pub fn oracle_validity(
    guard_rails: &OracleGuardRails,
    last_oracle_twap: u128,
    oracle_price_data: &OraclePriceData,
) -> (r: OracleValidity)
    ensures
        r == validity_spec(*guard_rails, last_oracle_twap, *oracle_price_data),
{
    let oracle_price = oracle_price_data.price;
    let max_ratio = i64_to_u128_wrapping(guard_rails.validity.too_volatile_ratio);
    let is_oracle_price_nonpositive = oracle_price == 0;
    let twap_or_one = if last_oracle_twap >= 1 {
        last_oracle_twap
    } else {
        1
    };
    let price_or_one = if oracle_price >= 1 {
        oracle_price
    } else {
        1
    };
    let ratio_1 = oracle_price / twap_or_one;
    let ratio_2 = last_oracle_twap / price_or_one;
    let is_oracle_price_too_volatile = ratio_1 >= max_ratio || ratio_2 >= max_ratio;
    let is_stale_for_pool = oracle_price_data.delay
        >= guard_rails.validity.seconds_before_stale_for_pool;
    if is_oracle_price_nonpositive {
        OracleValidity::NonPositive
    } else if is_oracle_price_too_volatile {
        OracleValidity::TooVolatile
    } else if is_stale_for_pool {
        OracleValidity::StaleForPool
    } else {
        OracleValidity::Valid
    }
}

/// Unsigned distance between the reserve price and the average after both are cut to 64 bits,
/// and whether the reserve price is the larger one (compared before the cut).
pub open spec fn spread_parts(other_price: u128, last_oracle_price_twap: u128) -> (int, bool) {
    let o = u128_as_u64(other_price);
    let t = u128_as_u64(last_oracle_price_twap);
    if other_price >= last_oracle_price_twap {
        (
            if o >= t {
                o - t
            } else {
                0
            },
            true,
        )
    } else {
        (
            if t >= o {
                t - o
            } else {
                0
            },
            false,
        )
    }
}

/// Magnitude of the spread in price precision relative to the reserve price, reinterpreted as an
/// `i64`.
pub open spec fn spread_magnitude(other_price: u128, last_oracle_price_twap: u128) -> int {
    let o = u128_as_u64(other_price);
    let denominator = if o >= 1 {
        o
    } else {
        1
    };
    u64_as_i64((spread_parts(other_price, last_oracle_price_twap).0 * PRICE_PRECISION_U64)
        / denominator)
}

/// The signed spread of a reserve price over the oracle average, as a fraction of the reserve
/// price in price precision; `MathError` when the scaled distance overflows a `u64`.
pub open spec fn spread_pct_spec(other_price: u128, last_oracle_price_twap: u128) -> Result<
    int,
    OracleRegistryError,
> {
    let (spread, positive) = spread_parts(other_price, last_oracle_price_twap);
    if spread * PRICE_PRECISION_U64 > u64::MAX {
        Err(OracleRegistryError::MathError)
    } else if positive {
        Ok(spread_magnitude(other_price, last_oracle_price_twap))
    } else {
        Ok(-spread_magnitude(other_price, last_oracle_price_twap))
    }
}

/// The spread can be negated without overflow.
pub open spec fn spread_pct_fits(other_price: u128, last_oracle_price_twap: u128) -> bool {
    spread_parts(other_price, last_oracle_price_twap).0 * PRICE_PRECISION_U64 <= u64::MAX
        ==> spread_magnitude(other_price, last_oracle_price_twap) != i64::MIN
}

fn u64_to_i64_wrapping(x: u64) -> (r: i64)
    ensures
        r == u64_as_i64(x as int),
{
    if x <= 9_223_372_036_854_775_807u64 {
        x as i64
    } else {
        let low: u64 = x - 9_223_372_036_854_775_808u64;
        (low as i64) + i64::MIN
    }
}

fn u128_to_u64_wrapping(x: u128) -> (r: u64)
    ensures
        r == u128_as_u64(x),
{
    (x % 0x1_0000_0000_0000_0000u128) as u64
}

/// Percentage spread between a reserve-derived price and the oracle average, positive when the
/// reserve price is above the average.
pub fn calculate_oracle_twap_price_spread_pct(other_price: u128, last_oracle_price_twap: u128) -> (r:
    Result<i64, OracleRegistryError>)
    requires
        other_price > 0,
        spread_pct_fits(other_price, last_oracle_price_twap),
    ensures
        r matches Ok(v) ==> spread_pct_spec(other_price, last_oracle_price_twap) == Ok::<
            int,
            OracleRegistryError,
        >(v as int),
        r matches Err(e) ==> spread_pct_spec(other_price, last_oracle_price_twap) == Err::<
            int,
            OracleRegistryError,
        >(e),
{
    let other_u64 = u128_to_u64_wrapping(other_price);
    let twap_u64 = u128_to_u64_wrapping(last_oracle_price_twap);
    let (price_spread, is_positive_spread): (u64, bool) = if other_price >= last_oracle_price_twap {
        if other_u64 >= twap_u64 {
            (other_u64 - twap_u64, true)
        } else {
            (0, true)
        }
    } else {
        if twap_u64 >= other_u64 {
            (twap_u64 - other_u64, false)
        } else {
            (0, false)
        }
    };
    let denominator: u64 = if other_u64 >= 1 {
        other_u64
    } else {
        1
    };
    if price_spread > u64::MAX / PRICE_PRECISION_U64 {
        return Err(OracleRegistryError::MathError);
    }
    let scaled: u64 = price_spread * PRICE_PRECISION_U64;
    let abs_price_spread_pct = u64_to_i64_wrapping(scaled / denominator);
    if is_positive_spread {
        Ok(abs_price_spread_pct)
    } else {
        Ok(-abs_price_spread_pct)
    }
}

/// Whether an oracle state is good enough for an action: liquidity changes tolerate a stale
/// price, average updates anything but a non-positive price, insurance claims anything but a
/// non-positive or volatile price; swaps, rebalances and unspecified actions need a valid price.
pub open spec fn valid_for_action_spec(validity: OracleValidity, action: Option<NormalAction>) -> bool {
    match action {
        Some(NormalAction::AddLiquidity) | Some(NormalAction::RemoveLiquidity) => validity
            == OracleValidity::Valid || validity == OracleValidity::StaleForPool,
        Some(NormalAction::UpdateTwap) => validity != OracleValidity::NonPositive,
        Some(NormalAction::ClaimInsurance) => validity != OracleValidity::NonPositive && validity
            != OracleValidity::TooVolatile,
        _ => validity == OracleValidity::Valid,
    }
}

/// Determines whether the oracle data is valid for a specific action.
pub fn is_oracle_valid_for_action(oracle_validity: OracleValidity, action: Option<NormalAction>) -> (r:
    bool)
    ensures
        r == valid_for_action_spec(oracle_validity, action),
{
    match action {
        Some(action) => match action {
            NormalAction::AddLiquidity => matches!(
                oracle_validity,
                OracleValidity::Valid | OracleValidity::StaleForPool
            ),
            NormalAction::RemoveLiquidity => matches!(
                oracle_validity,
                OracleValidity::Valid | OracleValidity::StaleForPool
            ),
            NormalAction::Swap => matches!(oracle_validity, OracleValidity::Valid),
            NormalAction::UpdateTwap => !matches!(oracle_validity, OracleValidity::NonPositive),
            NormalAction::Rebalance => matches!(oracle_validity, OracleValidity::Valid),
            NormalAction::ClaimInsurance => !matches!(
                oracle_validity,
                OracleValidity::NonPositive | OracleValidity::TooVolatile
            ),
        },
        None => matches!(oracle_validity, OracleValidity::Valid),
    }
}

/// The divergence limit in force: the configured one, never below ten percent.
pub open spec fn divergence_limit(guard_rails: OracleGuardRails) -> int {
    if guard_rails.price_divergence.oracle_twap_percent_divergence >= PERCENTAGE_PRECISION_U64 / 10 {
        guard_rails.price_divergence.oracle_twap_percent_divergence as int
    } else {
        (PERCENTAGE_PRECISION_U64 / 10) as int
    }
}

/// `|x|` on the integers.
pub open spec fn abs(x: int) -> int {
    if x >= 0 {
        x
    } else {
        -x
    }
}

/// Whether a spread exceeds the divergence limit (at least ten percent).
pub fn is_oracle_price_too_divergent(guard_rails: &OracleGuardRails, price_spread_pct: i64) -> (r:
    bool)
    ensures
        r == (abs(price_spread_pct as int) > divergence_limit(*guard_rails)),
{
    let floor = PERCENTAGE_PRECISION_U64 / 10;
    let max_divergence = if guard_rails.price_divergence.oracle_twap_percent_divergence >= floor {
        guard_rails.price_divergence.oracle_twap_percent_divergence
    } else {
        floor
    };
    let magnitude: u64 = if price_spread_pct >= 0 {
        price_spread_pct as u64
    } else if price_spread_pct == i64::MIN {
        9_223_372_036_854_775_808u64
    } else {
        (-price_spread_pct) as u64
    };
    magnitude > max_divergence
}

/// The oracle's health against a reserve price: its validity, the signed spread, and whether
/// that spread is too large.
pub fn get_oracle_status(
    guard_rails: &OracleGuardRails,
    oracle_price_data: &OraclePriceData,
    reserve_price: u128,
    last_oracle_price_twap: u128,
) -> (r: Result<OracleStatus, OracleRegistryError>)
    requires
        reserve_price > 0,
        spread_pct_fits(reserve_price, last_oracle_price_twap),
    ensures
        r matches Ok(s) ==> s.price_data == *oracle_price_data && s.oracle_validity
            == validity_spec(*guard_rails, last_oracle_price_twap, *oracle_price_data) && Ok::<
            int,
            OracleRegistryError,
        >(s.oracle_reserve_price_spread_pct as int) == spread_pct_spec(
            reserve_price,
            last_oracle_price_twap,
        ) && s.price_too_divergent == (abs(s.oracle_reserve_price_spread_pct as int)
            > divergence_limit(*guard_rails)),
        r matches Err(e) ==> spread_pct_spec(reserve_price, last_oracle_price_twap) == Err::<
            int,
            OracleRegistryError,
        >(e),
{
    let validity = oracle_validity(guard_rails, last_oracle_price_twap, oracle_price_data);
    let spread = calculate_oracle_twap_price_spread_pct(reserve_price, last_oracle_price_twap)?;
    let too_divergent = is_oracle_price_too_divergent(guard_rails, spread);
    Ok(
        OracleStatus {
            price_data: *oracle_price_data,
            oracle_reserve_price_spread_pct: spread,
            price_too_divergent: too_divergent,
            oracle_validity: validity,
        },
    )
}

/// Whether an action must be blocked: the oracle is not valid for it, or the reserve price has
/// diverged too far from the oracle average.
pub fn block_operation(
    guard_rails: &OracleGuardRails,
    oracle_price_data: &OraclePriceData,
    reserve_price: u128,
    last_oracle_price_twap: u128,
    action: NormalAction,
) -> (r: Result<bool, OracleRegistryError>)
    requires
        reserve_price > 0,
        spread_pct_fits(reserve_price, last_oracle_price_twap),
    ensures
        r matches Ok(b) ==> (spread_pct_spec(reserve_price, last_oracle_price_twap) matches Ok(
            spread,
        ) && b == (!valid_for_action_spec(
            validity_spec(*guard_rails, last_oracle_price_twap, *oracle_price_data),
            Some(action),
        ) || abs(spread) > divergence_limit(*guard_rails))),
        r matches Err(e) ==> spread_pct_spec(reserve_price, last_oracle_price_twap) == Err::<
            int,
            OracleRegistryError,
        >(e),
{
    let status = get_oracle_status(
        guard_rails,
        oracle_price_data,
        reserve_price,
        last_oracle_price_twap,
    )?;
    let is_oracle_valid = is_oracle_valid_for_action(status.oracle_validity, Some(action));
    Ok(!is_oracle_valid || status.price_too_divergent)
}

/// A live price observation: the feed's price (reinterpreted as unsigned) and the seconds
/// since it was published.
pub fn oracle_price_data_from_feed(now: u64, price: i128, published_ts: u64) -> (r: OraclePriceData)
    requires
        now > 0,
        published_ts <= now,
    ensures
        r.price == i128_as_u128(price),
        r.delay == now - published_ts,
{
    let unsigned_price: u128 = if price >= 0 {
        price as u128
    } else {
        let magnitude_minus_one: i128 = -(price + 1);
        u128::MAX - (magnitude_minus_one as u128)
    };
    OraclePriceData { price: unsigned_price, delay: now - published_ts }
}

/// The sanitizing band and the average update stay within a `u128`.
pub open spec fn twap_update_fits(
    historical: HistoricalOracleData,
    price: u128,
    sanitize_clamp_denominator: u64,
    now: u64,
) -> bool {
    let twap = historical.last_oracle_price_twap;
    &&& (sanitize_clamp_denominator != 0 ==> twap + twap as int / sanitize_clamp_denominator as int
        <= u128::MAX)
    &&& sanitized_price_spec(price as int, twap as int, sanitize_clamp_denominator as int)
        * since_last_spec(now, historical.last_oracle_price_twap_ts) + twap * FIVE_MINUTE
        <= u128::MAX
}

/// Oracle data after a new observation: the price is clamped to a band around the average,
/// rolled into a five-minute average (or zeroed while registering), and stamped with `now`.
pub open spec fn updated_data_spec(
    historical: HistoricalOracleData,
    data: OraclePriceData,
    sanitize_clamp_denominator: u64,
    now: u64,
    registering: bool,
) -> HistoricalOracleData {
    let twap = historical.last_oracle_price_twap;
    let capped = sanitized_price_spec(data.price as int, twap as int, sanitize_clamp_denominator as int);
    HistoricalOracleData {
        last_oracle_price_twap: if registering {
            0
        } else {
            new_twap_spec(capped, now, twap as int, historical.last_oracle_price_twap_ts, FIVE_MINUTE)
                as u128
        },
        last_oracle_price: data.price,
        last_oracle_delay: data.delay,
        last_oracle_price_twap_ts: now,
    }
}

/// Rolls a new observation into the oracle data; `MathError` when the arithmetic overflows.
pub fn update_twap(
    historical_oracle_data: &HistoricalOracleData,
    oracle_price_data: &OraclePriceData,
    sanitize_clamp_denominator: u64,
    now: u64,
    registering: bool,
) -> (r: Result<HistoricalOracleData, OracleRegistryError>)
    ensures
        twap_update_fits(*historical_oracle_data, oracle_price_data.price, sanitize_clamp_denominator, now)
            ==> r == Ok::<HistoricalOracleData, OracleRegistryError>(
            updated_data_spec(
                *historical_oracle_data,
                *oracle_price_data,
                sanitize_clamp_denominator,
                now,
                registering,
            ),
        ),
        !twap_update_fits(*historical_oracle_data, oracle_price_data.price, sanitize_clamp_denominator, now)
            ==> r == Err::<HistoricalOracleData, OracleRegistryError>(
            OracleRegistryError::MathError,
        ),
{
    let twap = historical_oracle_data.last_oracle_price_twap;
    if sanitize_clamp_denominator != 0 {
        let band = twap / (sanitize_clamp_denominator as u128);
        if twap > u128::MAX - band {
            return Err(OracleRegistryError::MathError);
        }
    }
    let capped = sanitize_new_price(oracle_price_data.price, twap, sanitize_clamp_denominator);
    let last_ts = historical_oracle_data.last_oracle_price_twap_ts;
    let since_last: u64 = if now >= last_ts {
        now - last_ts
    } else {
        0
    };
    let weighted_new = capped.checked_mul(since_last as u128);
    let weighted_old = twap.checked_mul(FIVE_MINUTE as u128);
    let fits = match (weighted_new, weighted_old) {
        (Some(a), Some(b)) => a.checked_add(b).is_some(),
        _ => false,
    };
    if !fits {
        return Err(OracleRegistryError::MathError);
    }
    let new_twap = calculate_new_twap(capped, now, twap, last_ts, FIVE_MINUTE);
    Ok(
        HistoricalOracleData {
            last_oracle_price_twap: if registering {
                0
            } else {
                new_twap
            },
            last_oracle_price: oracle_price_data.price,
            last_oracle_delay: oracle_price_data.delay,
            last_oracle_price_twap_ts: now,
        },
    )
}

/// A valid oracle serves every action, and a non-positive price serves none.
pub proof fn lemma_valid_oracle_serves_every_action(action: Option<NormalAction>)
    ensures
        valid_for_action_spec(OracleValidity::Valid, action),
        !valid_for_action_spec(OracleValidity::NonPositive, action),
{
}

/// Removing liquidity accepts exactly the oracle states that adding it does, a price that is
/// only stale for pools among them.
pub proof fn lemma_liquidity_actions_share_their_tolerance(validity: OracleValidity)
    ensures
        valid_for_action_spec(validity, Some(NormalAction::RemoveLiquidity))
            == valid_for_action_spec(validity, Some(NormalAction::AddLiquidity)),
        valid_for_action_spec(OracleValidity::StaleForPool, Some(NormalAction::RemoveLiquidity)),
        valid_for_action_spec(OracleValidity::StaleForPool, Some(NormalAction::AddLiquidity)),
{
}

/// Swaps ask the most of the oracle: a state good enough for a swap is good enough for any action.
pub proof fn lemma_swap_is_strictest(validity: OracleValidity, action: Option<NormalAction>)
    requires
        valid_for_action_spec(validity, Some(NormalAction::Swap)),
    ensures
        valid_for_action_spec(validity, action),
{
}

/// Staleness goes by age alone: a price that is stale at some delay is stale at any longer
/// delay, and one that is valid stays valid at any shorter delay.
pub proof fn lemma_staleness_monotone(
    guard_rails: OracleGuardRails,
    last_oracle_twap: u128,
    data: OraclePriceData,
    other_delay: u64,
)
    ensures
        validity_spec(guard_rails, last_oracle_twap, data) == OracleValidity::StaleForPool
            && other_delay >= data.delay ==> validity_spec(
            guard_rails,
            last_oracle_twap,
            OraclePriceData { delay: other_delay, ..data },
        ) == OracleValidity::StaleForPool,
        validity_spec(guard_rails, last_oracle_twap, data) == OracleValidity::Valid && other_delay
            <= data.delay ==> validity_spec(
            guard_rails,
            last_oracle_twap,
            OraclePriceData { delay: other_delay, ..data },
        ) == OracleValidity::Valid,
{
}

/// The spread has the sign of the reserve price's position against the average, and is zero
/// when they agree, as long as both prices and the spread's magnitude fit their signed range.
pub proof fn lemma_spread_sign(other_price: u128, last_oracle_price_twap: u128)
    requires
        0 < other_price <= u64::MAX,
        last_oracle_price_twap <= u64::MAX,
        spread_parts(other_price, last_oracle_price_twap).0 * PRICE_PRECISION_U64 / (
        other_price as int) <= i64::MAX,
    ensures
        spread_pct_spec(other_price, last_oracle_price_twap) matches Ok(s) ==> {
            &&& other_price > last_oracle_price_twap ==> s >= 0
            &&& other_price < last_oracle_price_twap ==> s <= 0
            &&& other_price == last_oracle_price_twap ==> s == 0
        },
{
    assert(u128_as_u64(other_price) == other_price as int) by {
        vstd::arithmetic::div_mod::lemma_small_mod(other_price as nat, two_pow_64() as nat);
    }
    assert(u128_as_u64(last_oracle_price_twap) == last_oracle_price_twap as int) by {
        vstd::arithmetic::div_mod::lemma_small_mod(last_oracle_price_twap as nat, two_pow_64() as nat);
    }
    let sp = spread_parts(other_price, last_oracle_price_twap).0;
    assert(sp >= 0);
    assert(sp * PRICE_PRECISION_U64 >= 0) by (nonlinear_arith)
        requires
            sp >= 0,
    ;
    assert(sp * PRICE_PRECISION_U64 / (other_price as int) >= 0) by (nonlinear_arith)
        requires
            sp * PRICE_PRECISION_U64 >= 0,
            other_price > 0,
    ;
}

} // verus!
