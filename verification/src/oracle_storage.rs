use vstd::prelude::*;
use crate::oracle_types::ColdOracleData;
use crate::oracle_types::HistoricalOracleData;
use crate::oracle_types::HotOracleData;
use crate::oracle_types::OracleFetchConfig;
use crate::constants::ONE_HOUR;
use crate::constants::PRICE_PRECISION;

verus! {

/// What the registry's storage holds for one asset's oracle data: a hot copy in temporary
/// storage (absent once it expired), a cold checkpoint, and data in the legacy layout.
#[derive(Clone, Copy, Debug, PartialEq, Eq, Structural)]
pub struct OracleDataStore {
    pub hot: Option<HotOracleData>,
    pub cold: Option<ColdOracleData>,
    pub legacy: Option<HistoricalOracleData>,
}

/// The default fetch configuration.
pub open spec fn default_fetch_config() -> OracleFetchConfig {
    OracleFetchConfig {
        hot_data_ttl_seconds: (48 * ONE_HOUR) as u64,
        cold_checkpoint_interval: (24 * ONE_HOUR) as u64,
    }
}

/// The fetch configuration in force: the stored one when it has a hot lifetime, else the
/// default (which is then stored).
pub open spec fn config_in_force(stored: Option<OracleFetchConfig>) -> OracleFetchConfig {
    match stored {
        Some(c) => if c.hot_data_ttl_seconds == 0 {
            default_fetch_config()
        } else {
            c
        },
        None => default_fetch_config(),
    }
}

/// The stored fetch configuration after it was read through `get_oracle_fetch_config_or_default`.
pub open spec fn config_after_read(stored: Option<OracleFetchConfig>) -> Option<OracleFetchConfig> {
    match stored {
        Some(c) => if c.hot_data_ttl_seconds == 0 {
            Some(default_fetch_config())
        } else {
            Some(c)
        },
        None => None,
    }
}

/// The stored fetch configuration, or the default when none is stored.
pub fn get_oracle_fetch_config(stored: &Option<OracleFetchConfig>) -> (r: OracleFetchConfig)
    ensures
        r == (match *stored {
            Some(c) => c,
            None => default_fetch_config(),
        }),
{
    match stored {
        Some(c) => *c,
        None => OracleFetchConfig::default(),
    }
}

/// The fetch configuration in force; a configuration without a hot lifetime is replaced by the
/// default, in storage too.
pub fn get_oracle_fetch_config_or_default(stored: &mut Option<OracleFetchConfig>) -> (r:
    OracleFetchConfig)
    ensures
        r == config_in_force(*old(stored)),
        *final(stored) == config_after_read(*old(stored)),
{
    let config = get_oracle_fetch_config(stored);
    if config.hot_data_ttl_seconds == 0 {
        let default_config = OracleFetchConfig::default();
        *stored = Some(default_config);
        default_config
    } else {
        config
    }
}

/// Reading an asset's oracle data: the hot copy first (its access time refreshed), then the
/// cold checkpoint (re-warmed when younger than the hot lifetime), then legacy data (copied
/// into both tiers), and otherwise the data of a unit-priced quote asset.
pub open spec fn read_spec(
    store: OracleDataStore,
    config: Option<OracleFetchConfig>,
    now: u64,
) -> (HistoricalOracleData, OracleDataStore, Option<OracleFetchConfig>) {
    match store.hot {
        Some(h) => (
            h.data,
            OracleDataStore { hot: Some(HotOracleData { last_accessed: now, ..h }), ..store },
            config,
        ),
        None => match store.cold {
            Some(c) => {
                let cfg = config_in_force(config);
                let store2 = if now - c.checkpoint_timestamp <= cfg.hot_data_ttl_seconds {
                    OracleDataStore {
                        hot: Some(HotOracleData { data: c.data, created_at: now, last_accessed: now }),
                        ..store
                    }
                } else {
                    store
                };
                (c.data, store2, config_after_read(config))
            },
            None => match store.legacy {
                Some(l) => (
                    l,
                    OracleDataStore {
                        hot: Some(HotOracleData { data: l, created_at: now, last_accessed: now }),
                        cold: Some(ColdOracleData { data: l, checkpoint_timestamp: now }),
                        legacy: store.legacy,
                    },
                    config,
                ),
                None => (
                    HistoricalOracleData {
                        last_oracle_price: PRICE_PRECISION,
                        last_oracle_delay: 0,
                        last_oracle_price_twap: PRICE_PRECISION,
                        last_oracle_price_twap_ts: 0,
                    },
                    store,
                    config,
                ),
            },
        },
    }
}

/// Reads an asset's oracle data through the storage tiers.
pub fn get_historical_oracle_data(
    store: &mut OracleDataStore,
    config: &mut Option<OracleFetchConfig>,
    now: u64,
) -> (r: HistoricalOracleData)
    requires
        old(store).hot is None ==> (old(store).cold matches Some(c) ==> c.checkpoint_timestamp
            <= now),
    ensures
        (r, *final(store), *final(config)) == read_spec(*old(store), *old(config), now),
{
    if let Some(hot_data) = store.hot {
        store.hot = Some(HotOracleData { last_accessed: now, ..hot_data });
        return hot_data.data;
    }
    if let Some(cold_data) = store.cold {
        let cfg = get_oracle_fetch_config_or_default(config);
        let age = now - cold_data.checkpoint_timestamp;
        if age <= cfg.hot_data_ttl_seconds {
            store.hot = Some(
                HotOracleData { data: cold_data.data, created_at: now, last_accessed: now },
            );
        }
        return cold_data.data;
    }
    if let Some(legacy_data) = store.legacy {
        store.hot = Some(HotOracleData { data: legacy_data, created_at: now, last_accessed: now });
        store.cold = Some(ColdOracleData { data: legacy_data, checkpoint_timestamp: now });
        return legacy_data;
    }
    HistoricalOracleData::default_quote_oracle()
}

/// Writing an asset's oracle data: always to the hot tier, and to a new cold checkpoint when
/// there is none yet or the last one is at least a checkpoint interval old.
pub open spec fn write_spec(
    store: OracleDataStore,
    config: Option<OracleFetchConfig>,
    data: HistoricalOracleData,
    now: u64,
) -> (OracleDataStore, Option<OracleFetchConfig>) {
    let cfg = config_in_force(config);
    let checkpoint = match store.cold {
        Some(c) => now - c.checkpoint_timestamp >= cfg.cold_checkpoint_interval,
        None => true,
    };
    (
        OracleDataStore {
            hot: Some(HotOracleData { data, created_at: now, last_accessed: now }),
            cold: if checkpoint {
                Some(ColdOracleData { data, checkpoint_timestamp: now })
            } else {
                store.cold
            },
            legacy: store.legacy,
        },
        config_after_read(config),
    )
}

/// Writes an asset's oracle data through the storage tiers.
pub fn put_historical_oracle_data(
    store: &mut OracleDataStore,
    config: &mut Option<OracleFetchConfig>,
    data: &HistoricalOracleData,
    now: u64,
)
    requires
        old(store).cold matches Some(c) ==> c.checkpoint_timestamp <= now,
    ensures
        (*final(store), *final(config)) == write_spec(*old(store), *old(config), *data, now),
{
    let cfg = get_oracle_fetch_config_or_default(config);
    store.hot = Some(HotOracleData { data: *data, created_at: now, last_accessed: now });
    let checkpoint = match store.cold {
        Some(existing_cold) => now - existing_cold.checkpoint_timestamp
            >= cfg.cold_checkpoint_interval,
        None => true,
    };
    if checkpoint {
        store.cold = Some(ColdOracleData { data: *data, checkpoint_timestamp: now });
    }
}

/// Deleting an oracle drops its legacy data; the hot copy and the checkpoint stay.
pub fn remove_oracle(store: &mut OracleDataStore)
    ensures
        *final(store) == (OracleDataStore { legacy: None, ..*old(store) }),
{
    store.legacy = None;
}

/// A read right after a write returns the data written, at any time, and a second read returns
/// it again.
pub proof fn lemma_read_after_write(
    store: OracleDataStore,
    config: Option<OracleFetchConfig>,
    data: HistoricalOracleData,
    now: u64,
    later: u64,
)
    ensures
        ({
            let (written, config2) = write_spec(store, config, data, now);
            let (read, store3, _) = read_spec(written, config2, later);
            read == data && read_spec(store3, config2, later).0 == data
        }),
{
}

/// An asset with nothing stored reads as a unit-priced quote asset, and the read stores nothing.
pub proof fn lemma_read_of_unknown_asset(config: Option<OracleFetchConfig>, now: u64)
    ensures
        ({
            let empty = OracleDataStore { hot: None, cold: None, legacy: None };
            let (read, store2, config2) = read_spec(empty, config, now);
            &&& read == (HistoricalOracleData {
                last_oracle_price: PRICE_PRECISION,
                last_oracle_delay: 0,
                last_oracle_price_twap: PRICE_PRECISION,
                last_oracle_price_twap_ts: 0,
            })
            &&& store2 == empty
            &&& config2 == config
        }),
{
}

} // verus!
