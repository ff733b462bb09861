use vstd::prelude::*;
use soroban_fixed_point_math::FixedPoint;
use soroban_fixed_point_math::SorobanFixedPoint;

verus! {

/// `floor(a / b)` on the integers, for a non-zero `b` of either sign.
pub open spec fn floor_div(a: int, b: int) -> int {
    if b > 0 {
        a / b
    } else {
        (-a) / (-b)
    }
}

/// `ceil(a / b)` for a positive `b`.
pub open spec fn ceil_div(a: int, b: int) -> int {
    (a + b - 1) / b
}

/// `<u128 as FixedPoint>::fixed_div_floor(x, y, denominator)`: `floor(x * denominator / y)`,
/// or `None` when `x * denominator` overflows a `u128` or `y` is zero.
#[verifier::external_body]
pub fn fixed_div_floor_u128(x: u128, y: u128, denominator: u128) -> (r: Option<u128>)
    ensures
        r == (if x * denominator <= u128::MAX && y != 0 {
            Some(((x * denominator) / (y as int)) as u128)
        } else {
            None
        }),
{
    FixedPoint::fixed_div_floor(x, y, denominator)
}

/// `<i64 as FixedPoint>::fixed_mul_floor(x, y, denominator)`: `floor(x * y / denominator)`
/// rounded toward negative infinity (the product is widened to `i128` when it overflows), or
/// `None` when `denominator` is zero or the quotient does not fit an `i64`.
#[verifier::external_body]
pub fn fixed_mul_floor_i64(x: i64, y: i64, denominator: i64) -> (r: Option<i64>)
    ensures
        r == (if denominator != 0 && i64::MIN <= floor_div(x * y, denominator as int)
            <= i64::MAX {
            Some(floor_div(x * y, denominator as int) as i64)
        } else {
            None
        }),
{
    FixedPoint::fixed_mul_floor(x, y, denominator)
}

/// `<u128 as SorobanFixedPoint>::fixed_mul_floor`: `floor(x * y / denominator)`, computed with
/// a 256-bit intermediate on the host when the product overflows; it panics when
/// `denominator` is zero or the quotient exceeds a `u128`.
#[verifier::external_body]
pub fn soroban_mul_floor_u128(e: &soroban_sdk::Env, x: u128, y: u128, denominator: u128) -> (r:
    u128)
    requires
        denominator != 0,
        (x * y) / (denominator as int) <= u128::MAX,
    ensures
        r == (x * y) / (denominator as int),
{
    SorobanFixedPoint::fixed_mul_floor(&x, e, &y, &denominator)
}

/// `<u128 as SorobanFixedPoint>::fixed_mul_ceil`: `ceil(x * y / denominator)`, with the same
/// 256-bit fallback; it panics when `denominator` is zero or the quotient exceeds a `u128`.
#[verifier::external_body]
pub fn soroban_mul_ceil_u128(e: &soroban_sdk::Env, x: u128, y: u128, denominator: u128) -> (r:
    u128)
    requires
        denominator != 0,
        ceil_div(x * y, denominator as int) <= u128::MAX,
    ensures
        r == ceil_div(x * y, denominator as int),
{
    SorobanFixedPoint::fixed_mul_ceil(&x, e, &y, &denominator)
}

/// `<u128 as SorobanFixedPoint>::fixed_div_floor(x, y, denominator)`:
/// `floor(x * denominator / y)`, with the same 256-bit fallback; it panics when `y` is zero or
/// the quotient exceeds a `u128`.
#[verifier::external_body]
pub fn soroban_div_floor_u128(e: &soroban_sdk::Env, x: u128, y: u128, denominator: u128) -> (r:
    u128)
    requires
        y != 0,
        (x * denominator) / (y as int) <= u128::MAX,
    ensures
        r == (x * denominator) / (y as int),
{
    SorobanFixedPoint::fixed_div_floor(&x, e, &y, &denominator)
}

} // verus!
