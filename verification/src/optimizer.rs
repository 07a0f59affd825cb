//! Insert settings for the column store.

use crate::text::{decimal, decimal_text};
use vstd::prelude::*;
use vstd::string::*;

verus! {

/// Tuning of bulk inserts.
#[derive(Debug, Clone)]
pub struct OptimizeConfig {
    pub async_insert: bool,
    pub wait_for_async_insert: bool,
    pub max_insert_threads: u32,
    /// In bytes.
    pub max_insert_block_size: u32,
    /// Rows per bulk insert.
    pub batch_size: usize,
    pub batch_timeout_secs: u64,
}

impl Default for OptimizeConfig {
    /// Asynchronous inserts that are not waited for, four threads, blocks of
    /// one mebibyte, a hundred rows or five seconds per batch.
    fn default() -> (config: Self)
        ensures
            config.async_insert,
            !config.wait_for_async_insert,
            config.max_insert_threads == 4,
            config.max_insert_block_size == 1_048_576,
            config.batch_size == 100,
            config.batch_timeout_secs == 5,
    {
        OptimizeConfig {
            async_insert: true,
            wait_for_async_insert: false,
            max_insert_threads: 4,
            max_insert_block_size: 1_048_576,
            batch_size: 100,
            batch_timeout_secs: 5,
        }
    }
}

/// The `SETTINGS` clause for a configuration: the asynchronous-insert
/// switch if it is on, the no-wait switch if waiting is off, then the
/// thread and block limits, separated by a comma and a space.
pub open spec fn insert_settings(config: OptimizeConfig) -> Seq<char> {
    "SETTINGS "@ + (if config.async_insert {
        "async_insert = 1, "@
    } else {
        Seq::empty()
    }) + (if !config.wait_for_async_insert {
        "wait_for_async_insert = 0, "@
    } else {
        Seq::empty()
    }) + "max_insert_threads = "@ + decimal_text(config.max_insert_threads as nat)
        + ", max_insert_block_size = "@ + decimal_text(config.max_insert_block_size as nat)
}

/// Produces insert settings from a configuration.
pub struct ClickHouseOptimizer {
    config: OptimizeConfig,
}

impl ClickHouseOptimizer {
    /// The configuration in use.
    pub closed spec fn spec_config(&self) -> OptimizeConfig {
        self.config
    }

    /// An optimizer with the default configuration.
    pub fn new() -> (optimizer: Self)
        ensures
            optimizer.spec_config().async_insert,
            !optimizer.spec_config().wait_for_async_insert,
            optimizer.spec_config().max_insert_threads == 4,
            optimizer.spec_config().max_insert_block_size == 1_048_576,
            optimizer.spec_config().batch_size == 100,
            optimizer.spec_config().batch_timeout_secs == 5,
    {
        ClickHouseOptimizer { config: OptimizeConfig::default() }
    }

    /// Replaces the configuration.
    pub fn with_config(self, config: OptimizeConfig) -> (optimizer: Self)
        ensures
            optimizer.spec_config() == config,
    {
        ClickHouseOptimizer { config: config }
    }

    /// The configuration in use.
    pub fn config(&self) -> (config: &OptimizeConfig)
        ensures
            *config == self.spec_config(),
    {
        &self.config
    }

    /// The `SETTINGS` clause to put before a bulk insert.
    pub fn get_insert_settings_sql(&self) -> (sql: String)
        ensures
            sql@ == insert_settings(self.spec_config()),
    {
        let mut sql = String::from_str("SETTINGS ");
        if self.config.async_insert {
            sql.append("async_insert = 1, ");
        }
        if !self.config.wait_for_async_insert {
            sql.append("wait_for_async_insert = 0, ");
        }
        sql.append("max_insert_threads = ");
        sql.append(decimal(self.config.max_insert_threads as u64).as_str());
        sql.append(", max_insert_block_size = ");
        sql.append(decimal(self.config.max_insert_block_size as u64).as_str());
        proof {
            assert(sql@ =~= insert_settings(self.config));
        }
        sql
    }
}


/// Size of one table.
#[derive(Debug, Clone)]
pub struct TableStats {
    pub table_name: String,
    /// Formatted size, such as `1.23 GiB`.
    pub size: String,
    pub rows: u64,
    pub parts: u32,
}

/// Cost of one query.
#[derive(Debug, Clone)]
pub struct QueryStats {
    pub query: String,
    pub duration_ms: u64,
    pub read_rows: u64,
    pub written_rows: u64,
}

/// Health of one table.
#[derive(Debug, Clone)]
pub struct TableHealth {
    pub table_name: String,
    pub is_healthy: bool,
    /// From 0 to 100.
    pub health_score: u32,
    pub issues: Vec<String>,
}

} // verus!
