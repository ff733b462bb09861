use vstd::prelude::*;

verus! {

/// Number of times `n` can be divided by ten before it drops below ten:
/// the floor of the base-ten logarithm, and zero for `n < 10`.
pub open spec fn log10_floor(n: nat) -> nat
    decreases n,
{
    if n < 10 {
        0
    } else {
        1 + log10_floor(n / 10)
    }
}

/// Ten to the power `k`.
pub open spec fn pow10(k: nat) -> nat
    decreases k,
{
    if k == 0 {
        1
    } else {
        10 * pow10((k - 1) as nat)
    }
}

/// Powers of ten are positive and grow with the exponent.
pub proof fn lemma_pow10_monotone(a: nat, b: nat)
    requires
        a <= b,
    ensures
        1 <= pow10(a) <= pow10(b),
    decreases b,
{
    if b > a {
        lemma_pow10_monotone(a, (b - 1) as nat);
    } else if a > 0 {
        lemma_pow10_monotone((a - 1) as nat, (a - 1) as nat);
    }
}

/// The integer logarithm brackets its argument: `10^log10(n) <= n < 10^(log10(n) + 1)`
/// for every positive `n`.
pub proof fn lemma_log10_bracket(n: nat)
    requires
        n >= 1,
    ensures
        pow10(log10_floor(n)) <= n < pow10(log10_floor(n) + 1),
    decreases n,
{
    if n >= 10 {
        lemma_log10_bracket(n / 10);
        let k = log10_floor(n / 10);
        assert(pow10(k + 1) == 10 * pow10(k));
        assert(pow10(k + 2) == 10 * pow10(k + 1));
    } else {
        assert(pow10(0) == 1);
        assert(pow10(1) == 10);
    }
}

/// The integer base-ten logarithm, counted by repeated division by ten (zero for inputs
/// below ten).
pub fn log10_iter(n: u128) -> (r: u128)
    ensures
        r == log10_floor(n as nat),
        r <= 39,
{
    let mut result: u128 = 0;
    let mut rest: u128 = n;
    assert(pow10(0) == 1);
    while rest >= 10
        invariant
            result + log10_floor(rest as nat) == log10_floor(n as nat),
            result <= 39,
            rest <= u128::MAX,
            rest as nat * pow10(result as nat) <= n,
        decreases rest,
    {
        proof {
            lemma_pow10_monotone(0, result as nat);
            assert(pow10((result + 1) as nat) == 10 * pow10(result as nat));
            assert((rest / 10) as nat * pow10((result + 1) as nat) <= rest as nat * pow10(
                result as nat,
            )) by (nonlinear_arith)
                requires
                    pow10((result + 1) as nat) == 10 * pow10(result as nat),
                    pow10(result as nat) >= 1,
            ;
            assert(pow10((result + 1) as nat) <= n) by (nonlinear_arith)
                requires
                    rest >= 10,
                    rest as nat * pow10(result as nat) <= n,
                    pow10((result + 1) as nat) == 10 * pow10(result as nat),
            ;
            lemma_pow10_bound((result + 1) as nat, n as nat);
        }
        result = result + 1;
        rest = rest / 10;
    }
    result
}

/// The logarithm of a positive `u128` is at most 38, and its power of ten fits a `u128`.
pub proof fn lemma_log10_bound(n: nat)
    requires
        1 <= n <= u128::MAX,
    ensures
        log10_floor(n) <= 38,
        pow10(log10_floor(n)) <= u128::MAX,
{
    lemma_log10_bracket(n);
    lemma_pow10_bound(log10_floor(n), n);
}

/// A power of ten that fits a `u128` has an exponent of at most 38.
pub proof fn lemma_pow10_le_max(k: nat)
    requires
        pow10(k) <= u128::MAX,
    ensures
        k <= 38,
{
    lemma_pow10_bound(k, pow10(k));
}

/// `10^38` fits a `u128`.
pub proof fn lemma_pow10_38_fits()
    ensures
        pow10(38) <= u128::MAX,
{
    reveal_with_fuel(pow10, 39);
    assert(pow10(38) == 100000000000000000000000000000000000000nat);
}

/// A power of ten that does not exceed a `u128` has an exponent of at most 38.
proof fn lemma_pow10_bound(k: nat, n: nat)
    requires
        pow10(k) <= n,
        n <= u128::MAX,
    ensures
        k <= 38,
{
    if k > 38 {
        lemma_pow10_monotone(39, k);
        reveal_with_fuel(pow10, 40);
        assert(pow10(39) == 1000000000000000000000000000000000000000nat);
    }
}

/// `10^k` as a `u128`, for exponents whose power fits.
pub fn pow10_u128(k: u32) -> (r: u128)
    requires
        pow10(k as nat) <= u128::MAX,
    ensures
        r == pow10(k as nat),
{
    let mut result: u128 = 1;
    let mut i: u32 = 0;
    assert(pow10(0) == 1);
    while i < k
        invariant
            i <= k,
            result == pow10(i as nat),
            pow10(k as nat) <= u128::MAX,
        decreases k - i,
    {
        proof {
            lemma_pow10_monotone((i + 1) as nat, k as nat);
            assert(pow10((i + 1) as nat) == 10 * pow10(i as nat));
        }
        result = result * 10;
        i = i + 1;
    }
    result
}

/// Weighted average `floor((d1 * w1 + d2 * w2) / (w1 + w2))`, where a zero weight selects the
/// other value outright.
pub open spec fn weighted_average_spec(d1: int, d2: int, w1: int, w2: int) -> int {
    if w1 == 0 {
        d2
    } else if w2 == 0 {
        d1
    } else {
        (d1 * w1 + d2 * w2) / (w1 + w2)
    }
}

/// Weighted average of two prices; a zero weight returns the other price unchanged.
pub fn calculate_weighted_average(data1: u128, data2: u128, weight1: u64, weight2: u64) -> (r:
    u128)
    requires
        weight1 != 0 && weight2 != 0 ==> data1 * weight1 + data2 * weight2 <= u128::MAX,
    ensures
        r == weighted_average_spec(data1 as int, data2 as int, weight1 as int, weight2 as int),
{
    if weight1 == 0 {
        return data2;
    }
    if weight2 == 0 {
        return data1;
    }
    proof {
        assert(data1 * weight1 <= data1 * weight1 + data2 * weight2) by (nonlinear_arith)
            requires
                data2 >= 0,
                weight2 >= 0,
        ;
        assert(data2 * weight2 <= data1 * weight1 + data2 * weight2) by (nonlinear_arith)
            requires
                data1 >= 0,
                weight1 >= 0,
        ;
    }
    let a: u128 = data1 * (weight1 as u128);
    let b: u128 = data2 * (weight2 as u128);
    let denominator: u128 = (weight1 as u128) + (weight2 as u128);
    (a + b) / denominator
}

/// Seconds elapsed since the last snapshot, zero when the clock went backwards.
pub open spec fn since_last_spec(now: u64, last_ts: u64) -> int {
    if now >= last_ts {
        now - last_ts
    } else {
        0
    }
}

/// Time-weighted average after a new observation: the new price weighs the time since the last
/// snapshot, the previous average the rest of the period (nothing once a full period passed).
pub open spec fn new_twap_spec(price: int, now: u64, last_twap: int, last_ts: u64, period: u64) -> int {
    let since_last = since_last_spec(now, last_ts);
    let from_start = if period >= since_last {
        period - since_last
    } else {
        0
    };
    weighted_average_spec(price, last_twap, since_last, from_start)
}

/// Rolls a new price observation into a time-weighted average price over `period` seconds.
pub fn calculate_new_twap(
    current_price: u128,
    current_ts: u64,
    last_twap: u128,
    last_ts: u64,
    period: u64,
) -> (r: u128)
    requires
        current_price * since_last_spec(current_ts, last_ts) + last_twap * period <= u128::MAX,
    ensures
        r == new_twap_spec(current_price as int, current_ts, last_twap as int, last_ts, period),
        current_price <= last_twap ==> current_price <= r <= last_twap,
        last_twap <= current_price ==> last_twap <= r <= current_price,
{
    let since_last: u64 = if current_ts >= last_ts {
        current_ts - last_ts
    } else {
        0
    };
    let from_start: u64 = if period >= since_last {
        period - since_last
    } else {
        0
    };
    proof {
        assert(last_twap * from_start <= last_twap * period) by (nonlinear_arith)
            requires
                from_start <= period,
                last_twap >= 0,
        ;
        lemma_weighted_average_between(
            current_price as int,
            last_twap as int,
            since_last as int,
            from_start as int,
        );
    }
    calculate_weighted_average(current_price, last_twap, since_last, from_start)
}

/// A weighted average of two non-negative values with non-negative weights lies between them.
pub proof fn lemma_weighted_average_between(d1: int, d2: int, w1: int, w2: int)
    requires
        d1 >= 0,
        d2 >= 0,
        w1 >= 0,
        w2 >= 0,
    ensures
        d1 <= d2 ==> d1 <= weighted_average_spec(d1, d2, w1, w2) <= d2,
        d2 <= d1 ==> d2 <= weighted_average_spec(d1, d2, w1, w2) <= d1,
{
    if w1 != 0 && w2 != 0 {
        let lo = if d1 <= d2 {
            d1
        } else {
            d2
        };
        let hi = if d1 <= d2 {
            d2
        } else {
            d1
        };
        let s = d1 * w1 + d2 * w2;
        assert(lo * (w1 + w2) <= s <= hi * (w1 + w2)) by (nonlinear_arith)
            requires
                lo <= d1 <= hi,
                lo <= d2 <= hi,
                w1 >= 0,
                w2 >= 0,
                s == d1 * w1 + d2 * w2,
        ;
        lemma_div_between(s, w1 + w2, lo, hi);
    }
}

/// `lo * d <= s <= hi * d` with `d > 0` gives `lo <= s / d <= hi`.
pub proof fn lemma_div_between(s: int, d: int, lo: int, hi: int)
    requires
        d > 0,
        lo * d <= s <= hi * d,
    ensures
        lo <= s / d <= hi,
{
    vstd::arithmetic::div_mod::lemma_fundamental_div_mod(s, d);
    let q = s / d;
    let r = s % d;
    assert(q >= lo) by (nonlinear_arith)
        requires
            s == d * q + r,
            0 <= r < d,
            lo * d <= s,
            d > 0,
    ;
    assert(q <= hi) by (nonlinear_arith)
        requires
            s == d * q + r,
            0 <= r < d,
            s <= hi * d,
            d > 0,
    ;
}

/// A new price limited to a band of `last_twap / clamp_denominator` around the last average;
/// without an average or a clamp the price passes unchanged.
pub open spec fn sanitized_price_spec(new_price: int, last_twap: int, clamp_denominator: int) -> int {
    if last_twap == 0 || clamp_denominator == 0 {
        new_price
    } else {
        let band = last_twap / clamp_denominator;
        if new_price > last_twap + band {
            last_twap + band
        } else if new_price < last_twap - band {
            last_twap - band
        } else {
            new_price
        }
    }
}

/// Caps a new oracle price to a band around the last time-weighted average, so that one update
/// cannot move the average by more than `1 / clamp_denominator` of it.
pub fn sanitize_new_price(new_price: u128, last_twap: u128, clamp_denominator: u64) -> (r: u128)
    requires
        clamp_denominator != 0 ==> last_twap + (last_twap as int) / (clamp_denominator as int) <= u128::MAX,
    ensures
        r == sanitized_price_spec(new_price as int, last_twap as int, clamp_denominator as int),
        last_twap != 0 && clamp_denominator != 0 ==> last_twap - (last_twap as int) / (
        clamp_denominator as int) <= r <= last_twap + (last_twap as int) / (clamp_denominator as int),
{
    if last_twap == 0 || clamp_denominator == 0 {
        return new_price;
    }
    let band: u128 = last_twap / (clamp_denominator as u128);
    if new_price > last_twap + band {
        last_twap + band
    } else if new_price < last_twap - band {
        last_twap - band
    } else {
        new_price
    }
}

} // verus!
