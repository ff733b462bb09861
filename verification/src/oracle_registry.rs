use vstd::prelude::*;
use crate::oracle::oracle_validity;
use crate::oracle::update_twap;
use crate::oracle::updated_data_spec;
use crate::oracle::twap_update_fits;
use crate::oracle::validity_spec;
use crate::oracle_types::HistoricalOracleData;
use crate::oracle_types::MutableOracleInfo;
use crate::oracle_types::OracleGuardRails;
use crate::oracle_types::OracleInfo;
use crate::oracle_types::OraclePriceData;
use crate::oracle_types::OracleRegistryError;
use crate::oracle_types::OracleValidity;

verus! {

/// The oracle registry contract: it registers price oracles per asset, keeps a time-weighted
/// average of their prices, and classifies their health. Its entry points are written here as
/// transitions from the stored state and the request to the new state (or the error that aborts
/// the call).
pub struct OracleRegistry;

impl OracleRegistry {
    /// A price query: a frozen oracle answers with its remembered data; otherwise the live
    /// price is classified and rolled into the average, and the updated data is the answer.
    pub fn get_price(
        frozen: bool,
        sanitize_clamp_denominator: u64,
        guard_rails: &OracleGuardRails,
        historical_oracle_data: HistoricalOracleData,
        live_price_data: &OraclePriceData,
        now: u64,
    ) -> (r: Result<(HistoricalOracleData, OracleValidity), OracleRegistryError>)
        ensures
            frozen ==> r == Ok::<(HistoricalOracleData, OracleValidity), OracleRegistryError>(
                (historical_oracle_data, OracleValidity::Frozen),
            ),
            !frozen && twap_update_fits(
                historical_oracle_data,
                live_price_data.price,
                sanitize_clamp_denominator,
                now,
            ) ==> r == Ok::<(HistoricalOracleData, OracleValidity), OracleRegistryError>(
                (
                    updated_data_spec(
                        historical_oracle_data,
                        *live_price_data,
                        sanitize_clamp_denominator,
                        now,
                        false,
                    ),
                    validity_spec(
                        *guard_rails,
                        historical_oracle_data.last_oracle_price_twap,
                        *live_price_data,
                    ),
                ),
            ),
            !frozen && !twap_update_fits(
                historical_oracle_data,
                live_price_data.price,
                sanitize_clamp_denominator,
                now,
            ) ==> r == Err::<(HistoricalOracleData, OracleValidity), OracleRegistryError>(
                OracleRegistryError::MathError,
            ),
    {
        if frozen {
            return Ok((historical_oracle_data, OracleValidity::Frozen));
        }
        let validity = oracle_validity(
            guard_rails,
            historical_oracle_data.last_oracle_price_twap,
            live_price_data,
        );
        let updated = update_twap(
            &historical_oracle_data,
            live_price_data,
            sanitize_clamp_denominator,
            now,
            false,
        )?;
        Ok((updated, validity))
    }

    /// Registering an oracle for an asset: the clamp denominator must be positive, the asset
    /// must be unregistered, and the oracle's live price must be valid against itself; the
    /// average starts from that price.
    pub fn register_oracle(
        already_registered: bool,
        oracle_addr: soroban_sdk::Address,
        decimals: u32,
        sanitize_clamp_denominator: u64,
        guard_rails: &OracleGuardRails,
        live_price_data: &OraclePriceData,
        now: u64,
    ) -> (r: Result<(OracleInfo, HistoricalOracleData), OracleRegistryError>)
        ensures
            sanitize_clamp_denominator == 0 ==> r is Err && r->Err_0
                == OracleRegistryError::InvalidClampDenominator,
            sanitize_clamp_denominator != 0 && already_registered ==> r is Err && r->Err_0
                == OracleRegistryError::OracleAlreadyRegistered,
            sanitize_clamp_denominator != 0 && !already_registered && validity_spec(
                *guard_rails,
                live_price_data.price,
                *live_price_data,
            ) != OracleValidity::Valid ==> r is Err && r->Err_0
                == OracleRegistryError::OracleInvalid,
            r matches Ok((info, data)) ==> {
                &&& sanitize_clamp_denominator != 0 && !already_registered
                &&& validity_spec(*guard_rails, live_price_data.price, *live_price_data)
                    == OracleValidity::Valid
                &&& info.address == oracle_addr && info.decimals == decimals && !info.frozen
                    && info.sanitize_clamp_denominator == sanitize_clamp_denominator
                    && info.last_updated == now
                &&& data == updated_data_spec(
                    HistoricalOracleData {
                        last_oracle_price: live_price_data.price,
                        last_oracle_delay: live_price_data.delay,
                        last_oracle_price_twap: live_price_data.price,
                        last_oracle_price_twap_ts: 0,
                    },
                    *live_price_data,
                    sanitize_clamp_denominator,
                    now,
                    false,
                )
            },
            sanitize_clamp_denominator != 0 && !already_registered && validity_spec(
                *guard_rails,
                live_price_data.price,
                *live_price_data,
            ) == OracleValidity::Valid ==> (r is Ok <==> twap_update_fits(
                HistoricalOracleData {
                    last_oracle_price: live_price_data.price,
                    last_oracle_delay: live_price_data.delay,
                    last_oracle_price_twap: live_price_data.price,
                    last_oracle_price_twap_ts: 0,
                },
                live_price_data.price,
                sanitize_clamp_denominator,
                now,
            )),
    {
        if sanitize_clamp_denominator == 0 {
            return Err(OracleRegistryError::InvalidClampDenominator);
        }
        if already_registered {
            return Err(OracleRegistryError::OracleAlreadyRegistered);
        }
        let validity = oracle_validity(guard_rails, live_price_data.price, live_price_data);
        if validity != OracleValidity::Valid {
            return Err(OracleRegistryError::OracleInvalid);
        }
        let seeded = HistoricalOracleData::default_with_current_oracle(*live_price_data);
        let data = update_twap(&seeded, live_price_data, sanitize_clamp_denominator, now, false)?;
        let oracle = OracleInfo {
            address: oracle_addr,
            decimals,
            frozen: false,
            sanitize_clamp_denominator,
            last_updated: now,
        };
        Ok((oracle, data))
    }

    /// Updating an oracle's registration: the asset must be registered; a new address must
    /// deliver a valid price (`new_address_price`, fetched from it) against the current
    /// average; decimals may not exceed 18; a new clamp denominator must be positive. Fields not
    /// given keep their values, and the update is stamped with `now`.
    pub fn update_oracle(
        existing: Option<OracleInfo>,
        params: MutableOracleInfo,
        guard_rails: &OracleGuardRails,
        historical_oracle_data: &HistoricalOracleData,
        new_address_price: Option<OraclePriceData>,
        now: u64,
    ) -> (r: Result<OracleInfo, OracleRegistryError>)
        requires
            existing is Some && params.address is Some ==> new_address_price is Some,
        ensures
            existing is None ==> r is Err && r->Err_0 == OracleRegistryError::OracleNotRegistered,
            existing matches Some(oracle) ==> {
                let address_ok = params.address is None || validity_spec(
                    *guard_rails,
                    historical_oracle_data.last_oracle_price_twap,
                    new_address_price->Some_0,
                ) == OracleValidity::Valid;
                let decimals_ok = params.decimals matches Some(d) ==> d <= 18;
                let clamp_ok = params.sanitize_clamp_denominator matches Some(c) ==> c != 0;
                &&& !address_ok ==> r is Err && r->Err_0 == OracleRegistryError::OracleInvalid
                &&& address_ok && !decimals_ok ==> r is Err && r->Err_0
                    == OracleRegistryError::InvalidDecimals
                &&& address_ok && decimals_ok && !clamp_ok ==> r is Err && r->Err_0
                    == OracleRegistryError::InvalidClampDenominator
                &&& address_ok && decimals_ok && clamp_ok ==> (r matches Ok(u) && u.address == (
                match params.address {
                    Some(a) => a,
                    None => oracle.address,
                }) && u.decimals == (match params.decimals {
                    Some(d) => d,
                    None => oracle.decimals,
                }) && u.sanitize_clamp_denominator == (match params.sanitize_clamp_denominator {
                    Some(c) => c,
                    None => oracle.sanitize_clamp_denominator,
                }) && u.frozen == (match params.frozen {
                    Some(f) => f,
                    None => oracle.frozen,
                }) && u.last_updated == now)
            },
    {
        match existing {
            None => Err(OracleRegistryError::OracleNotRegistered),
            Some(oracle) => {
                if params.address.is_some() {
                    let price_data = match new_address_price {
                        Some(p) => p,
                        None => {
                            return Err(OracleRegistryError::OracleInvalid);
                        },
                    };
                    let validity = oracle_validity(
                        guard_rails,
                        historical_oracle_data.last_oracle_price_twap,
                        &price_data,
                    );
                    if validity != OracleValidity::Valid {
                        return Err(OracleRegistryError::OracleInvalid);
                    }
                }
                if let Some(decimals) = params.decimals {
                    if decimals > 18 {
                        return Err(OracleRegistryError::InvalidDecimals);
                    }
                }
                if let Some(sanitize_clamp_denominator) = params.sanitize_clamp_denominator {
                    if sanitize_clamp_denominator == 0 {
                        return Err(OracleRegistryError::InvalidClampDenominator);
                    }
                }
                let address = match params.address {
                    Some(a) => a,
                    None => oracle.address,
                };
                let decimals = match params.decimals {
                    Some(d) => d,
                    None => oracle.decimals,
                };
                let sanitize_clamp_denominator = match params.sanitize_clamp_denominator {
                    Some(c) => c,
                    None => oracle.sanitize_clamp_denominator,
                };
                let frozen = match params.frozen {
                    Some(f) => f,
                    None => oracle.frozen,
                };
                Ok(
                    OracleInfo {
                        address,
                        decimals,
                        sanitize_clamp_denominator,
                        frozen,
                        last_updated: now,
                    },
                )
            },
        }
    }

    /// Deleting an oracle: the asset must be registered.
    pub fn delete_oracle(registered: bool) -> (r: Result<(), OracleRegistryError>)
        ensures
            r == (if registered {
                Ok(())
            } else {
                Err(OracleRegistryError::OracleNotFound)
            }),
    {
        if !registered {
            return Err(OracleRegistryError::OracleNotFound);
        }
        Ok(())
    }

    /// A manual price override: the price must be non-zero and valid against the average (with
    /// the time since the average's last update as its delay), and more than the staleness
    /// window must have passed since the oracle was last updated; the price is rolled into the
    /// average with no delay and the oracle is stamped with `now`.
    pub fn set_oracle_price(
        price: u128,
        oracle: OracleInfo,
        guard_rails: &OracleGuardRails,
        historical_oracle_data: &HistoricalOracleData,
        now: u64,
    ) -> (r: Result<(OracleInfo, HistoricalOracleData), OracleRegistryError>)
        requires
            price != 0 ==> historical_oracle_data.last_oracle_price_twap_ts <= now,
            price != 0 && validity_spec(
                *guard_rails,
                historical_oracle_data.last_oracle_price_twap,
                OraclePriceData {
                    price,
                    delay: (now - historical_oracle_data.last_oracle_price_twap_ts) as u64,
                },
            ) == OracleValidity::Valid ==> oracle.last_updated <= now,
        ensures
            ({
                let observed = OraclePriceData {
                    price,
                    delay: (now - historical_oracle_data.last_oracle_price_twap_ts) as u64,
                };
                let overriding = OraclePriceData { price, delay: 0 };
                &&& price == 0 ==> r is Err && r->Err_0 == OracleRegistryError::InvalidPrice
                &&& price != 0 && validity_spec(
                    *guard_rails,
                    historical_oracle_data.last_oracle_price_twap,
                    observed,
                ) != OracleValidity::Valid ==> r is Err && r->Err_0
                    == OracleRegistryError::OracleInvalid
                &&& price != 0 && validity_spec(
                    *guard_rails,
                    historical_oracle_data.last_oracle_price_twap,
                    observed,
                ) == OracleValidity::Valid && now - oracle.last_updated
                    <= guard_rails.validity.seconds_before_stale_for_pool ==> r is Err && r->Err_0
                    == OracleRegistryError::PriceOverrideTooSoon
                &&& r matches Ok((info, data)) ==> {
                    &&& price != 0
                    &&& validity_spec(
                        *guard_rails,
                        historical_oracle_data.last_oracle_price_twap,
                        observed,
                    ) == OracleValidity::Valid
                    &&& now - oracle.last_updated > guard_rails.validity.seconds_before_stale_for_pool
                    &&& info.address == oracle.address && info.decimals == oracle.decimals
                        && info.frozen == oracle.frozen && info.sanitize_clamp_denominator
                        == oracle.sanitize_clamp_denominator && info.last_updated == now
                    &&& data == updated_data_spec(
                        *historical_oracle_data,
                        overriding,
                        oracle.sanitize_clamp_denominator,
                        now,
                        false,
                    )
                }
                &&& price != 0 && validity_spec(
                    *guard_rails,
                    historical_oracle_data.last_oracle_price_twap,
                    observed,
                ) == OracleValidity::Valid && now - oracle.last_updated
                    > guard_rails.validity.seconds_before_stale_for_pool ==> (r is Ok
                    <==> twap_update_fits(
                    *historical_oracle_data,
                    price,
                    oracle.sanitize_clamp_denominator,
                    now,
                ))
            }),
    {
        if price == 0 {
            return Err(OracleRegistryError::InvalidPrice);
        }
        let observed = OraclePriceData {
            price,
            delay: now - historical_oracle_data.last_oracle_price_twap_ts,
        };
        let validity = oracle_validity(
            guard_rails,
            historical_oracle_data.last_oracle_price_twap,
            &observed,
        );
        if validity != OracleValidity::Valid {
            return Err(OracleRegistryError::OracleInvalid);
        }
        if now - oracle.last_updated <= guard_rails.validity.seconds_before_stale_for_pool {
            return Err(OracleRegistryError::PriceOverrideTooSoon);
        }
        let overriding = OraclePriceData { price, delay: 0 };
        let data = update_twap(
            historical_oracle_data,
            &overriding,
            oracle.sanitize_clamp_denominator,
            now,
            false,
        )?;
        let updated = OracleInfo { last_updated: now, ..oracle };
        Ok((updated, data))
    }
}

} // verus!
