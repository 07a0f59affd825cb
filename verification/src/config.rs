//! Recognised settings and their defaults.

use vstd::prelude::*;
use vstd::string::*;

verus! {

/// Where the stores live.
#[derive(Debug, Clone)]
pub struct DatabaseConfig {
    pub clickhouse_url: String,
    pub sqlite_path: String,
}

/// Where the command endpoints listen.
#[derive(Debug, Clone)]
pub struct ApiConfig {
    pub host: String,
    pub port: u16,
}

/// The upstream pool and the collection interval.
#[derive(Debug, Clone)]
pub struct DataSourceConfig {
    pub tdx_servers: Vec<String>,
    pub update_interval_secs: u64,
}

/// All settings.
#[derive(Debug, Clone)]
pub struct Config {
    pub database: DatabaseConfig,
    pub api: ApiConfig,
    pub data_source: DataSourceConfig,
}

impl Default for DataSourceConfig {
    /// Two upstream servers, collected every three seconds.
    fn default() -> (config: Self)
        ensures
            config.tdx_servers@.len() == 2,
            config.tdx_servers@[0]@ == "124.71.187.122:7709"@,
            config.tdx_servers@[1]@ == "122.51.120.217:7709"@,
            config.update_interval_secs == 3,
    {
        let mut servers: Vec<String> = Vec::new();
        servers.push(String::from_str("124.71.187.122:7709"));
        servers.push(String::from_str("122.51.120.217:7709"));
        DataSourceConfig { tdx_servers: servers, update_interval_secs: 3 }
    }
}

impl Default for Config {
    /// Local stores, the loopback endpoint on port 8000, and the default
    /// data source.
    fn default() -> (config: Self)
        ensures
            config.database.clickhouse_url@ == "http://localhost:8123"@,
            config.database.sqlite_path@ == "kaipanla.db"@,
            config.api.host@ == "127.0.0.1"@,
            config.api.port == 8000,
            config.data_source.tdx_servers@.len() == 2,
            config.data_source.tdx_servers@[0]@ == "124.71.187.122:7709"@,
            config.data_source.tdx_servers@[1]@ == "122.51.120.217:7709"@,
            config.data_source.update_interval_secs == 3,
    {
        Config {
            database: DatabaseConfig {
                clickhouse_url: String::from_str("http://localhost:8123"),
                sqlite_path: String::from_str("kaipanla.db"),
            },
            api: ApiConfig { host: String::from_str("127.0.0.1"), port: 8000 },
            data_source: DataSourceConfig::default(),
        }
    }
}

} // verus!
