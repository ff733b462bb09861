use vstd::prelude::*;

verus! {

/// Prices carry seven decimals.
pub const PRICE_PRECISION: u128 = 10_000_000;

/// Prices carry seven decimals.
pub const PRICE_PRECISION_U64: u64 = 10_000_000;

/// Quote amounts carry six decimals.
pub const QUOTE_PRECISION: u128 = 1_000_000;

/// One hundred percent.
pub const PERCENTAGE_PRECISION: u128 = 10_000_000;

/// One hundred percent.
pub const PERCENTAGE_PRECISION_U64: u64 = 10_000_000;

/// One hundred percent.
pub const PERCENTAGE_PRECISION_U32: u32 = 10_000_000;

/// Full utilization on the interest rate curve, in basis points.
pub const FULL_UTILIZATION_BPS: i64 = 10_000;

/// Fee fractions are counted in hundredths of a percent.
pub const FEE_MULTIPLIER: u128 = 10_000;

/// Units of percentage precision in one basis point.
pub const PERCENTAGE_PER_BASIS_POINT: u32 = 1_000;

/// Basis points in a whole.
pub const BASIS_POINTS: u128 = 10_000;

/// The period of the oracle time-weighted averages, in seconds.
pub const FIVE_MINUTE: u64 = 300;

/// One hour, in seconds.
pub const ONE_HOUR: u64 = 3_600;

} // verus!
