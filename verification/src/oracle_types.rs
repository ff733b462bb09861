use vstd::prelude::*;
use crate::constants::PRICE_PRECISION;
use crate::constants::PERCENTAGE_PRECISION_U64;
use crate::constants::ONE_HOUR;

verus! {

/// Errors raised by the oracle registry.
#[derive(Clone, Copy, Debug, PartialEq, Eq, Structural)]
pub enum OracleRegistryError {
    AlreadyInitialized,
    NotAuthorized,
    AdminNotSet,
    InvalidPrice,
    OracleNotRegistered,
    PriceOverrideLimitExceeded,
    OracleNotFound,
    OracleFrozen,
    OracleInvalid,
    PriceOverrideTooSoon,
    OracleAlreadyRegistered,
    InvalidClampDenominator,
    InvalidDecimals,
    MathError,
}

impl OracleRegistryError {
    /// The contract error number under which the error is reported on chain.
    pub fn code(&self) -> (c: u32)
        ensures
            c == match self {
                OracleRegistryError::AlreadyInitialized => 15u32,
                OracleRegistryError::NotAuthorized => 16,
                OracleRegistryError::AdminNotSet => 17,
                OracleRegistryError::InvalidPrice => 18,
                OracleRegistryError::OracleNotRegistered => 19,
                OracleRegistryError::PriceOverrideLimitExceeded => 20,
                OracleRegistryError::OracleNotFound => 21,
                OracleRegistryError::OracleFrozen => 22,
                OracleRegistryError::OracleInvalid => 23,
                OracleRegistryError::PriceOverrideTooSoon => 24,
                OracleRegistryError::OracleAlreadyRegistered => 25,
                OracleRegistryError::InvalidClampDenominator => 26,
                OracleRegistryError::InvalidDecimals => 27,
                OracleRegistryError::MathError => 511,
            },
    {
        match self {
            OracleRegistryError::AlreadyInitialized => 15,
            OracleRegistryError::NotAuthorized => 16,
            OracleRegistryError::AdminNotSet => 17,
            OracleRegistryError::InvalidPrice => 18,
            OracleRegistryError::OracleNotRegistered => 19,
            OracleRegistryError::PriceOverrideLimitExceeded => 20,
            OracleRegistryError::OracleNotFound => 21,
            OracleRegistryError::OracleFrozen => 22,
            OracleRegistryError::OracleInvalid => 23,
            OracleRegistryError::PriceOverrideTooSoon => 24,
            OracleRegistryError::OracleAlreadyRegistered => 25,
            OracleRegistryError::InvalidClampDenominator => 26,
            OracleRegistryError::InvalidDecimals => 27,
            OracleRegistryError::MathError => 511,
        }
    }
}

/// Errors that describe why oracle data is unusable.
#[derive(Clone, Copy, Debug, PartialEq, Eq, Structural)]
pub enum OracleError {
    OracleNonPositive,
    OracleTooVolatile,
    OracleStaleForSwap,
    OracleStaleForPool,
    OracleFrozen,
}

/// A price observed on an oracle, with the seconds elapsed since it was published.
#[derive(Clone, Copy, Debug, PartialEq, Eq, Structural)]
pub struct OraclePriceData {
    pub price: u128,
    pub delay: u64,
}

/// The oracle data the registry remembers for an asset: the last price, its delay, and the
/// time-weighted average price with the time of its last update.
#[derive(Clone, Copy, Debug, PartialEq, Eq, Structural)]
pub struct HistoricalOracleData {
    pub last_oracle_price: u128,
    pub last_oracle_delay: u64,
    pub last_oracle_price_twap: u128,
    pub last_oracle_price_twap_ts: u64,
}

impl HistoricalOracleData {
    /// Data of a quote asset worth exactly one unit.
    pub fn default_quote_oracle() -> (r: Self)
        ensures
            r == (HistoricalOracleData {
                last_oracle_price: PRICE_PRECISION,
                last_oracle_delay: 0,
                last_oracle_price_twap: PRICE_PRECISION,
                last_oracle_price_twap_ts: 0,
            }),
    {
        HistoricalOracleData {
            last_oracle_price: PRICE_PRECISION,
            last_oracle_delay: 0,
            last_oracle_price_twap: PRICE_PRECISION,
            last_oracle_price_twap_ts: 0,
        }
    }

    /// Data seeded with a price, both as the last price and as the average, with a ten second
    /// delay.
    pub fn default_price(price: u128) -> (r: Self)
        ensures
            r == (HistoricalOracleData {
                last_oracle_price: price,
                last_oracle_delay: 10,
                last_oracle_price_twap: price,
                last_oracle_price_twap_ts: 0,
            }),
    {
        HistoricalOracleData {
            last_oracle_price: price,
            last_oracle_delay: 10,
            last_oracle_price_twap: price,
            last_oracle_price_twap_ts: 0,
        }
    }

    /// Data seeded with a live oracle observation.
    pub fn default_with_current_oracle(oracle_price_data: OraclePriceData) -> (r: Self)
        ensures
            r == (HistoricalOracleData {
                last_oracle_price: oracle_price_data.price,
                last_oracle_delay: oracle_price_data.delay,
                last_oracle_price_twap: oracle_price_data.price,
                last_oracle_price_twap_ts: 0,
            }),
    {
        HistoricalOracleData {
            last_oracle_price: oracle_price_data.price,
            last_oracle_delay: oracle_price_data.delay,
            last_oracle_price_twap: oracle_price_data.price,
            last_oracle_price_twap_ts: 0,
        }
    }
}

/// Limit on how far a reserve price may stray from the oracle average.
#[derive(Clone, Copy, Debug, PartialEq, Eq, Structural)]
pub struct PriceDivergenceGuardRails {
    pub oracle_twap_percent_divergence: u64,
}

/// Limits on the age and jumpiness of oracle prices.
#[derive(Clone, Copy, Debug, PartialEq, Eq, Structural)]
pub struct ValidityGuardRails {
    pub seconds_before_stale_for_pool: u64,
    pub too_volatile_ratio: i64,
}

/// The registry's oracle safety limits.
#[derive(Clone, Copy, Debug, PartialEq, Eq, Structural)]
pub struct OracleGuardRails {
    pub price_divergence: PriceDivergenceGuardRails,
    pub validity: ValidityGuardRails,
}

impl OracleGuardRails {
    /// Ten percent divergence, five seconds of freshness, and a volatility ratio of 120.
    pub fn default() -> (r: Self)
        ensures
            r.price_divergence.oracle_twap_percent_divergence == PERCENTAGE_PRECISION_U64 / 10,
            r.validity.seconds_before_stale_for_pool == 5,
            r.validity.too_volatile_ratio == 120,
    {
        OracleGuardRails {
            price_divergence: PriceDivergenceGuardRails {
                oracle_twap_percent_divergence: PERCENTAGE_PRECISION_U64 / 10,
            },
            validity: ValidityGuardRails { seconds_before_stale_for_pool: 5, too_volatile_ratio: 120 },
        }
    }

    /// The configured divergence, never below fifty percent.
    pub fn max_oracle_twap_percent_divergence(&self) -> (r: u64)
        ensures
            r == (if self.price_divergence.oracle_twap_percent_divergence >= PERCENTAGE_PRECISION_U64
                / 2 {
                self.price_divergence.oracle_twap_percent_divergence
            } else {
                PERCENTAGE_PRECISION_U64 / 2
            }),
    {
        let half = PERCENTAGE_PRECISION_U64 / 2;
        if self.price_divergence.oracle_twap_percent_divergence >= half {
            self.price_divergence.oracle_twap_percent_divergence
        } else {
            half
        }
    }
}

/// How usable an oracle price is, from the most to the least severe problem; a frozen oracle
/// answers from its remembered data.
#[derive(Clone, Copy, Debug, PartialEq, Eq, Structural)]
pub enum OracleValidity {
    NonPositive,
    TooVolatile,
    StaleForSwap,
    StaleForPool,
    Frozen,
    Valid,
}

impl OracleValidity {
    /// The error that describes an unusable oracle state.
    pub fn get_error_code(&self) -> (r: OracleError)
        requires
            *self != OracleValidity::Valid,
        ensures
            *self == OracleValidity::NonPositive ==> r == OracleError::OracleNonPositive,
            *self == OracleValidity::TooVolatile ==> r == OracleError::OracleTooVolatile,
            *self == OracleValidity::StaleForSwap ==> r == OracleError::OracleStaleForSwap,
            *self == OracleValidity::StaleForPool ==> r == OracleError::OracleStaleForPool,
            *self == OracleValidity::Frozen ==> r == OracleError::OracleFrozen,
    {
        match self {
            OracleValidity::NonPositive => OracleError::OracleNonPositive,
            OracleValidity::TooVolatile => OracleError::OracleTooVolatile,
            OracleValidity::StaleForSwap => OracleError::OracleStaleForSwap,
            OracleValidity::Frozen => OracleError::OracleFrozen,
            _ => OracleError::OracleStaleForPool,
        }
    }
}

/// A summary of an oracle's health against a reserve price.
#[derive(Clone, Copy, Debug, PartialEq, Eq, Structural)]
pub struct OracleStatus {
    pub price_data: OraclePriceData,
    pub oracle_reserve_price_spread_pct: i64,
    pub price_too_divergent: bool,
    pub oracle_validity: OracleValidity,
}

/// Protocol actions whose safety depends on the oracle.
#[derive(Clone, Copy, Debug, PartialEq, Eq, Structural)]
pub enum NormalAction {
    AddLiquidity,
    RemoveLiquidity,
    Swap,
    UpdateTwap,
    Rebalance,
    ClaimInsurance,
}

/// A registered oracle: where it is, how its prices are scaled, and how they are sanitized.
pub struct OracleInfo {
    pub address: soroban_sdk::Address,
    pub decimals: u32,
    pub frozen: bool,
    pub sanitize_clamp_denominator: u64,
    pub last_updated: u64,
}

/// The fields of an oracle registration that an update may change.
pub struct MutableOracleInfo {
    pub address: Option<soroban_sdk::Address>,
    pub decimals: Option<u32>,
    pub sanitize_clamp_denominator: Option<u64>,
    pub frozen: Option<bool>,
}

/// Lifetime of the hot copy of oracle data and spacing of the cold checkpoints.
#[derive(Clone, Copy, Debug, PartialEq, Eq, Structural)]
pub struct OracleFetchConfig {
    pub hot_data_ttl_seconds: u64,
    pub cold_checkpoint_interval: u64,
}

impl OracleFetchConfig {
    /// Forty-eight hours of hot data and a cold checkpoint each day.
    pub fn default() -> (r: Self)
        ensures
            r.hot_data_ttl_seconds == 48 * ONE_HOUR,
            r.cold_checkpoint_interval == 24 * ONE_HOUR,
    {
        OracleFetchConfig { hot_data_ttl_seconds: 48 * ONE_HOUR, cold_checkpoint_interval: 24 * ONE_HOUR }
    }
}

/// Oracle data in fast storage, with the times it was written and last read.
#[derive(Clone, Copy, Debug, PartialEq, Eq, Structural)]
pub struct HotOracleData {
    pub data: HistoricalOracleData,
    pub created_at: u64,
    pub last_accessed: u64,
}

/// A periodic checkpoint of oracle data in durable storage.
#[derive(Clone, Copy, Debug, PartialEq, Eq, Structural)]
pub struct ColdOracleData {
    pub data: HistoricalOracleData,
    pub checkpoint_timestamp: u64,
}

} // verus!
