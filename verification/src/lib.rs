//! Verified core of the Normal protocol's Soroban contracts: the insurance fund, the buffer,
//! the oracle registry and the liquidity pools' pricing rules.

pub mod constants;
pub mod host;
pub mod fixed_point;
pub mod math;
pub mod insurance_errors;
pub mod insurance;
pub mod stake;
pub mod oracle_types;
pub mod oracle;
pub mod oracle_storage;
pub mod oracle_registry;
pub mod interest;
pub mod insurance_fund;
pub mod buffer;
pub mod pool;
pub mod elastic;
