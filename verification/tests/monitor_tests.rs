use kaipanla::monitor::{AlertLevel, CollectorMonitor, FULL_SCORE};

fn monitor() -> CollectorMonitor {
    CollectorMonitor::new(vec!["localhost:7709".to_string()])
}

#[test]
fn test_monitor_creation() {
    let servers = vec!["124.71.187.122:7709".to_string(), "122.51.120.217:7709".to_string()];
    let monitor = CollectorMonitor::new(servers);
    let metrics = monitor.get_metrics();
    assert_eq!(metrics.servers.len(), 2);
    assert_eq!(metrics.servers[0].addr, "124.71.187.122:7709");
    assert_eq!(metrics.servers[1].addr, "122.51.120.217:7709");
    assert!(metrics.servers.iter().all(|s| s.is_healthy && s.fail_count == 0));
    assert_eq!(metrics.quality_score, FULL_SCORE);
}

#[test]
fn test_record_metrics() {
    let mut monitor = monitor();

    monitor.record_success();
    monitor.record_success();
    monitor.record_failure();

    let metrics = monitor.get_metrics();
    assert_eq!(metrics.success_count, 2);
    assert_eq!(metrics.failed_count, 1);
}

#[test]
fn test_latency_tracking() {
    let mut monitor = monitor();

    monitor.record_latency(10_000);
    monitor.record_latency(20_000);
    monitor.record_latency(30_000);

    let avg = monitor.get_avg_latency();
    assert_eq!(avg, 20_000);
}

#[test]
fn test_alert_conditions() {
    let mut monitor = monitor();

    for _ in 0..10 {
        monitor.record_failure();
    }

    let alerts = monitor.check_alerts();
    assert!(!alerts.is_empty());
    assert_eq!(alerts[0].level, AlertLevel::Error);
}

#[test]
fn test_server_health_update() {
    let mut monitor = monitor();

    monitor.update_server_health("localhost:7709".to_string(), false, 0);

    let metrics = monitor.get_metrics();
    assert_eq!(metrics.servers[0].is_healthy, false);
    assert_eq!(metrics.servers[0].fail_count, 1);
}

#[test]
fn quality_score_after_two_successes_and_one_failure() {
    let mut monitor = monitor();
    monitor.record_success();
    monitor.record_success();
    monitor.record_failure();
    let metrics = monitor.get_metrics_at(1_700_000_000);
    assert_eq!(metrics.quality_score, 6667);
    let percent = metrics.quality_score as f64 / 100.0;
    assert!((percent - 66.67).abs() < 0.01);
}

#[test]
fn quality_score_counts_timeouts_as_attempts() {
    let mut monitor = monitor();
    monitor.record_success();
    monitor.record_timeout();
    let metrics = monitor.get_metrics_at(0);
    assert_eq!(metrics.timeout_count, 1);
    assert_eq!(metrics.quality_score, 5000);
}

#[test]
fn nine_failures_raise_no_error_alert() {
    let mut monitor = monitor();
    for _ in 0..9 {
        monitor.record_failure();
    }
    assert!(monitor.check_alerts_at(5).is_empty());
    monitor.record_failure();
    let alerts = monitor.check_alerts_at(5);
    assert_eq!(alerts.len(), 1);
    assert_eq!(alerts[0].level, AlertLevel::Error);
    assert_eq!(alerts[0].message, "collection failed 10 times");
    assert_eq!(alerts[0].context, "collection");
    assert_eq!(alerts[0].timestamp, 5);
}

#[test]
fn reset_counters_keeps_health_and_latency() {
    let mut monitor = CollectorMonitor::new_at(vec!["a:1".to_string()], 100);
    monitor.record_success();
    monitor.record_failure();
    monitor.record_timeout();
    monitor.record_latency(4_000);
    monitor.update_server_health_at("a:1".to_string(), false, 0, 150);
    monitor.set_total_stocks(12);
    monitor.reset_counters();
    let metrics = monitor.get_metrics_at(200);
    assert_eq!((metrics.success_count, metrics.failed_count, metrics.timeout_count), (0, 0, 0));
    assert_eq!(metrics.quality_score, FULL_SCORE);
    assert_eq!(metrics.avg_latency_us, 4_000);
    assert_eq!(metrics.total_stocks, 12);
    assert_eq!(metrics.servers.len(), 1);
    assert_eq!(metrics.servers[0].is_healthy, false);
    assert_eq!(metrics.servers[0].fail_count, 1);
    assert_eq!(metrics.servers[0].last_check, 150);
}

#[test]
fn metrics_uptime_and_freshness() {
    let monitor = CollectorMonitor::new_at(vec![], 1_000);
    let early = monitor.get_metrics_at(1_100);
    assert_eq!(early.uptime_secs, 100);
    assert_eq!(early.data_freshness_secs, 100);
    assert_eq!(early.last_update, 1_100);
    let late = monitor.get_metrics_at(2_000);
    assert_eq!(late.uptime_secs, 1_000);
    assert_eq!(late.data_freshness_secs, 300);
    let before = monitor.get_metrics_at(900);
    assert_eq!(before.uptime_secs, 0);
    assert_eq!(before.data_freshness_secs, 0);
    assert_eq!(before.avg_latency_us, 0);
}

#[test]
fn latency_window_evicts_the_oldest() {
    let mut monitor = monitor();
    monitor.record_latency(1_000_000);
    for _ in 0..999 {
        monitor.record_latency(0);
    }
    assert_eq!(monitor.get_avg_latency(), 1_000);
    monitor.record_latency(0);
    assert_eq!(monitor.get_avg_latency(), 0);
}

#[test]
fn known_server_is_smoothed_and_unknown_is_appended() {
    let mut monitor = CollectorMonitor::new_at(vec!["a:1".to_string()], 10);
    monitor.update_server_health_at("a:1".to_string(), true, 1_000, 20);
    monitor.update_server_health_at("b:2".to_string(), true, 500, 30);
    monitor.update_server_health_at("c:3".to_string(), false, 700, 40);
    monitor.update_server_health_at("a:1".to_string(), true, 1_000, 50);
    monitor.update_server_health_at("c:3".to_string(), false, 9_999, 60);
    let servers = monitor.get_metrics_at(70).servers;
    assert_eq!(servers.len(), 3);
    assert_eq!(servers[0].addr, "a:1");
    // 0 -> 100 -> 190
    assert_eq!(servers[0].avg_latency_us, 190);
    assert_eq!(servers[0].last_check, 50);
    assert_eq!(servers[0].fail_count, 0);
    assert_eq!((servers[1].addr.as_str(), servers[1].avg_latency_us, servers[1].fail_count), ("b:2", 500, 0));
    assert!(servers[1].is_healthy);
    // smoothed on the unhealthy check too: (700 * 9 + 9999) / 10
    assert_eq!((servers[2].addr.as_str(), servers[2].avg_latency_us, servers[2].fail_count), ("c:3", 1629, 2));
    assert!(!servers[2].is_healthy);
    assert_eq!(servers[2].last_check, 60);
}

#[test]
fn healthy_check_clears_the_failure_count() {
    let mut monitor = CollectorMonitor::new_at(vec!["a:1".to_string()], 10);
    monitor.update_server_health_at("a:1".to_string(), false, 0, 20);
    monitor.update_server_health_at("a:1".to_string(), false, 0, 21);
    assert_eq!(monitor.get_metrics_at(22).servers[0].fail_count, 2);
    monitor.update_server_health_at("a:1".to_string(), true, 0, 23);
    let servers = monitor.get_metrics_at(24).servers;
    assert_eq!(servers[0].fail_count, 0);
    assert!(servers[0].is_healthy);
}

#[test]
fn all_servers_down_is_critical() {
    let mut monitor = CollectorMonitor::new_at(vec!["a:1".to_string(), "b:2".to_string()], 0);
    monitor.update_server_health_at("a:1".to_string(), false, 0, 1);
    assert!(monitor.check_alerts_at(2).is_empty());
    monitor.update_server_health_at("b:2".to_string(), false, 0, 1);
    let alerts = monitor.check_alerts_at(2);
    assert_eq!(alerts.len(), 1);
    assert_eq!(alerts[0].level, AlertLevel::Critical);
    assert_eq!(alerts[0].context, "servers");
    assert_eq!(alerts[0].message, "all servers are unavailable");
    let empty = CollectorMonitor::new_at(vec![], 0);
    assert!(empty.check_alerts_at(1).is_empty());
}

#[test]
fn low_quality_needs_more_than_a_hundred_attempts() {
    let mut monitor = monitor();
    for _ in 0..89 {
        monitor.record_success();
    }
    for _ in 0..5 {
        monitor.record_failure();
    }
    for _ in 0..6 {
        monitor.record_timeout();
    }
    // 89 of 100: low, but not more than a hundred attempts
    assert!(monitor.check_alerts_at(0).is_empty());
    monitor.record_timeout();
    let alerts = monitor.check_alerts_at(0);
    assert_eq!(alerts.len(), 1);
    assert_eq!(alerts[0].level, AlertLevel::Warning);
    assert_eq!(alerts[0].context, "quality");
    assert_eq!(alerts[0].message, "data quality score: 88.1%");
    assert_eq!(monitor.get_metrics_at(0).quality_score, 8812);
}

#[test]
fn ninety_percent_is_not_low() {
    let mut monitor = monitor();
    for _ in 0..180 {
        monitor.record_success();
    }
    for _ in 0..20 {
        monitor.record_timeout();
    }
    assert!(monitor.check_alerts_at(0).is_empty());
}

#[test]
fn high_latency_is_a_warning() {
    let mut monitor = monitor();
    monitor.record_latency(1_000_000);
    assert!(monitor.check_alerts_at(0).is_empty());
    monitor.record_latency(1_000_001);
    let alerts = monitor.check_alerts_at(9);
    assert_eq!(alerts.len(), 1);
    assert_eq!(alerts[0].level, AlertLevel::Warning);
    assert_eq!(alerts[0].context, "performance");
    assert_eq!(alerts[0].message, "average latency too high: 1000.0ms");
    assert_eq!(alerts[0].timestamp, 9);
}

#[test]
fn alerts_come_in_rule_order() {
    let mut monitor = CollectorMonitor::new_at(vec!["a:1".to_string()], 0);
    for _ in 0..200 {
        monitor.record_failure();
    }
    monitor.update_server_health_at("a:1".to_string(), false, 0, 1);
    monitor.record_latency(2_500_000);
    let levels: Vec<AlertLevel> = monitor.check_alerts_at(2).iter().map(|a| a.level).collect();
    assert_eq!(
        levels,
        vec![AlertLevel::Error, AlertLevel::Critical, AlertLevel::Warning, AlertLevel::Warning]
    );
    let alerts = monitor.check_alerts_at(2);
    assert_eq!(alerts[0].message, "collection failed 200 times");
    assert_eq!(alerts[2].message, "data quality score: 0.0%");
    assert_eq!(alerts[3].message, "average latency too high: 2500.0ms");
}

#[test]
fn clock_stamps_are_current() {
    let before = chrono::Utc::now().timestamp();
    let mut monitor = CollectorMonitor::new(vec!["a:1".to_string()]);
    monitor.update_server_health("b:2".to_string(), true, 250);
    let metrics = monitor.get_metrics();
    let alerts = {
        for _ in 0..10 {
            monitor.record_failure();
        }
        monitor.check_alerts()
    };
    let after = chrono::Utc::now().timestamp();
    assert!(before <= metrics.last_update && metrics.last_update <= after);
    assert!(metrics.uptime_secs <= (after - before) as u64);
    for server in &metrics.servers {
        assert!(before <= server.last_check && server.last_check <= after);
    }
    assert_eq!(metrics.servers[1].addr, "b:2");
    assert_eq!(metrics.servers[1].avg_latency_us, 250);
    assert!(before <= alerts[0].timestamp && alerts[0].timestamp <= after);
}

#[test]
fn counters_are_independent() {
    let mut monitor = CollectorMonitor::new_at(vec![], 0);
    monitor.record_timeout();
    monitor.record_timeout();
    monitor.record_success();
    let metrics = monitor.get_metrics_at(0);
    assert_eq!((metrics.success_count, metrics.failed_count, metrics.timeout_count), (1, 0, 2));
    assert_eq!(metrics.quality_score, 3333);
}

#[test]
fn quality_score_rounds_to_the_nearest_hundredth() {
    let mut monitor = CollectorMonitor::new_at(vec![], 0);
    monitor.record_success();
    monitor.record_failure();
    monitor.record_failure();
    // 33.333..
    assert_eq!(monitor.get_metrics_at(0).quality_score, 3333);
    for _ in 0..5 {
        monitor.record_success();
    }
    // 6 of 8
    assert_eq!(monitor.get_metrics_at(0).quality_score, 7500);
    let mut half = CollectorMonitor::new_at(vec![], 0);
    half.record_success();
    for _ in 0..19_999 {
        half.record_timeout();
    }
    // 1 of 20000 is half a hundredth: it goes up
    assert_eq!(half.get_metrics_at(0).quality_score, 1);
}
