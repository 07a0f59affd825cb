use kaipanla::config::{Config, DataSourceConfig};
use kaipanla::optimizer::{ClickHouseOptimizer, OptimizeConfig};

#[test]
fn test_optimize_config_default() {
    let config = OptimizeConfig::default();
    assert_eq!(config.async_insert, true);
    assert_eq!(config.batch_size, 100);
    assert_eq!(config.batch_timeout_secs, 5);
}

#[test]
fn test_insert_settings_sql() {
    let optimizer = ClickHouseOptimizer::new();
    let sql = optimizer.get_insert_settings_sql();

    assert!(sql.contains("async_insert = 1"));
    assert!(sql.contains("wait_for_async_insert = 0"));
}

#[test]
fn test_custom_config() {
    let config = OptimizeConfig {
        async_insert: false,
        batch_size: 200,
        ..Default::default()
    };

    assert_eq!(config.async_insert, false);
    assert_eq!(config.batch_size, 200);
}

#[test]
fn insert_settings_sql_default_is_exact() {
    let optimizer = ClickHouseOptimizer::new();
    assert_eq!(
        optimizer.get_insert_settings_sql(),
        "SETTINGS async_insert = 1, wait_for_async_insert = 0, max_insert_threads = 4, max_insert_block_size = 1048576"
    );
}

#[test]
fn insert_settings_sql_follows_the_switches() {
    let config = OptimizeConfig {
        async_insert: false,
        wait_for_async_insert: true,
        max_insert_threads: 16,
        max_insert_block_size: 0,
        ..Default::default()
    };
    let optimizer = ClickHouseOptimizer::new().with_config(config);
    assert_eq!(optimizer.config().max_insert_threads, 16);
    assert_eq!(
        optimizer.get_insert_settings_sql(),
        "SETTINGS max_insert_threads = 16, max_insert_block_size = 0"
    );
}

#[test]
fn optimize_config_default_is_complete() {
    let config = OptimizeConfig::default();
    assert_eq!(config.wait_for_async_insert, false);
    assert_eq!(config.max_insert_threads, 4);
    assert_eq!(config.max_insert_block_size, 1_048_576);
}

#[test]
fn config_default_values() {
    let config = Config::default();
    assert_eq!(config.database.clickhouse_url, "http://localhost:8123");
    assert_eq!(config.database.sqlite_path, "kaipanla.db");
    assert_eq!(config.api.host, "127.0.0.1");
    assert_eq!(config.api.port, 8000);
    assert_eq!(
        config.data_source.tdx_servers,
        vec!["124.71.187.122:7709".to_string(), "122.51.120.217:7709".to_string()]
    );
    assert_eq!(config.data_source.update_interval_secs, 3);
    assert_eq!(DataSourceConfig::default().update_interval_secs, 3);
}
