//! Collection metrics, per-server health and threshold alerts.
//!
//! Latencies are whole microseconds and the quality score is in hundredths
//! of a percent, so averages and thresholds are exact integer arithmetic.

use crate::clock::now_timestamp;
use crate::text::{decimal, decimal_text, tenths, tenths_text, texts};
use vstd::prelude::*;
use vstd::string::*;

verus! {

/// Number of latency samples kept; the oldest is evicted beyond it.
pub const LATENCY_WINDOW: usize = 1000;

/// Quality score when every attempt succeeded, in hundredths of a percent.
pub const FULL_SCORE: u64 = 10_000;

/// Cumulative failures from which an error alert is raised.
pub const FAILURE_ALERT_COUNT: u64 = 10;

/// Success percentage below which a quality warning is raised.
pub const QUALITY_ALERT_PERCENT: u64 = 90;

/// Attempts that must be exceeded before quality is judged.
pub const QUALITY_ALERT_ATTEMPTS: u64 = 100;

/// Average latency in microseconds above which a warning is raised.
pub const LATENCY_ALERT_US: u64 = 1_000_000;

/// Cap on the reported data freshness, in seconds.
pub const FRESHNESS_CAP_SECS: u64 = 300;

/// Severity of an alert.
#[derive(Debug, Clone, Copy, PartialEq, Eq, Structural)]
pub enum AlertLevel {
    Info,
    Warning,
    Error,
    Critical,
}

/// Health record of one upstream server.
#[derive(Debug, Clone)]
pub struct ServerHealth {
    pub addr: String,
    pub is_healthy: bool,
    /// Seconds since the Unix epoch of the last check.
    pub last_check: i64,
    /// Consecutive failed checks.
    pub fail_count: usize,
    /// Exponentially smoothed latency, in microseconds.
    pub avg_latency_us: u64,
}

/// Mathematical content of a [`ServerHealth`].
pub struct ServerHealthView {
    pub addr: Seq<char>,
    pub is_healthy: bool,
    pub last_check: int,
    pub fail_count: nat,
    pub avg_latency_us: nat,
}

impl View for ServerHealth {
    type V = ServerHealthView;

    open spec fn view(&self) -> ServerHealthView {
        ServerHealthView {
            addr: self.addr@,
            is_healthy: self.is_healthy,
            last_check: self.last_check as int,
            fail_count: self.fail_count as nat,
            avg_latency_us: self.avg_latency_us as nat,
        }
    }
}

/// The contents of a list of health records, in order.
pub open spec fn health_views(servers: Seq<ServerHealth>) -> Seq<ServerHealthView> {
    Seq::new(servers.len(), |i: int| servers[i]@)
}

/// A derived alert.
#[derive(Debug, Clone)]
pub struct Alert {
    pub level: AlertLevel,
    pub message: String,
    /// Seconds since the Unix epoch at which the alert was derived.
    pub timestamp: i64,
    /// Which rule raised it.
    pub context: String,
}

/// Mathematical content of an [`Alert`].
pub struct AlertView {
    pub level: AlertLevel,
    pub message: Seq<char>,
    pub timestamp: int,
    pub context: Seq<char>,
}

impl View for Alert {
    type V = AlertView;

    open spec fn view(&self) -> AlertView {
        AlertView {
            level: self.level,
            message: self.message@,
            timestamp: self.timestamp as int,
            context: self.context@,
        }
    }
}

/// The contents of a list of alerts, in order.
pub open spec fn alert_views(alerts: Seq<Alert>) -> Seq<AlertView> {
    Seq::new(alerts.len(), |i: int| alerts[i]@)
}

/// Point-in-time snapshot of the monitor.
#[derive(Debug, Clone)]
pub struct CollectionMetrics {
    pub total_stocks: usize,
    pub success_count: u64,
    pub failed_count: u64,
    pub timeout_count: u64,
    /// Mean of the kept latency samples, in microseconds, rounded down.
    pub avg_latency_us: u64,
    /// Seconds since the Unix epoch at which the snapshot was taken.
    pub last_update: i64,
    pub uptime_secs: u64,
    pub servers: Vec<ServerHealth>,
    /// Share of successful attempts, in hundredths of a percent, rounded to
    /// the nearest.
    pub quality_score: u64,
    pub data_freshness_secs: u64,
}

/// Mathematical content of a [`CollectionMetrics`].
pub struct MetricsView {
    pub total_stocks: nat,
    pub success_count: nat,
    pub failed_count: nat,
    pub timeout_count: nat,
    pub avg_latency_us: nat,
    pub last_update: int,
    pub uptime_secs: nat,
    pub servers: Seq<ServerHealthView>,
    pub quality_score: nat,
    pub data_freshness_secs: nat,
}

impl View for CollectionMetrics {
    type V = MetricsView;

    open spec fn view(&self) -> MetricsView {
        MetricsView {
            total_stocks: self.total_stocks as nat,
            success_count: self.success_count as nat,
            failed_count: self.failed_count as nat,
            timeout_count: self.timeout_count as nat,
            avg_latency_us: self.avg_latency_us as nat,
            last_update: self.last_update as int,
            uptime_secs: self.uptime_secs as nat,
            servers: health_views(self.servers@),
            quality_score: self.quality_score as nat,
            data_freshness_secs: self.data_freshness_secs as nat,
        }
    }
}

/// Sum of a sequence of samples.
pub open spec fn sum(samples: Seq<u64>) -> nat
    decreases samples.len(),
{
    if samples.len() == 0 {
        0
    } else {
        sum(samples.drop_last()) + samples.last() as nat
    }
}

/// Mean of a sequence of samples, rounded down; zero for no samples.
pub open spec fn average(samples: Seq<u64>) -> nat {
    if samples.len() == 0 {
        0
    } else {
        sum(samples) / samples.len()
    }
}

/// The samples after one more is recorded: it goes to the back, and the
/// front one leaves once the window is exceeded.
pub open spec fn push_sample(samples: Seq<u64>, sample: u64) -> Seq<u64> {
    if samples.len() + 1 > LATENCY_WINDOW {
        samples.push(sample).remove(0)
    } else {
        samples.push(sample)
    }
}

/// Share of successes among all attempts, in hundredths of a percent,
/// rounded to the nearest hundredth (a half goes up); the full score when
/// nothing was attempted.
pub open spec fn quality(success: nat, failed: nat, timeout: nat) -> nat {
    if success + failed + timeout > 0 {
        (2 * success * FULL_SCORE as nat + (success + failed + timeout)) / (2 * (success + failed
            + timeout))
    } else {
        FULL_SCORE as nat
    }
}

/// Exponential smoothing: nine parts of the old average, one of the sample.
pub open spec fn smooth(old_avg: nat, sample: nat) -> nat {
    (old_avg * 9 + sample) / 10
}

/// A counter after one increment; it wraps at the top of its range.
pub open spec fn bump(count: nat) -> nat {
    if count >= u64::MAX {
        0
    } else {
        count + 1
    }
}

/// Whether `i` is the first record with address `addr`.
pub open spec fn first_match(servers: Seq<ServerHealthView>, addr: Seq<char>, i: int) -> bool {
    &&& 0 <= i < servers.len()
    &&& servers[i].addr == addr
    &&& forall|j: int| 0 <= j < i ==> (#[trigger] servers[j]).addr != addr
}

/// Whether some record has address `addr`.
pub open spec fn known(servers: Seq<ServerHealthView>, addr: Seq<char>) -> bool {
    exists|i: int| 0 <= i < servers.len() && (#[trigger] servers[i]).addr == addr
}

/// A record after a check: flag and time are refreshed and the latency is
/// smoothed; a healthy check clears the failure count, an unhealthy one
/// counts one more failure.
pub open spec fn refreshed(
    record: ServerHealthView,
    is_healthy: bool,
    latency_us: nat,
    now: int,
) -> ServerHealthView {
    ServerHealthView {
        addr: record.addr,
        is_healthy: is_healthy,
        last_check: now,
        fail_count: if is_healthy {
            0
        } else if record.fail_count >= usize::MAX {
            record.fail_count
        } else {
            record.fail_count + 1
        },
        avg_latency_us: smooth(record.avg_latency_us, latency_us),
    }
}

/// The record of a server seen for the first time.
pub open spec fn first_seen(
    addr: Seq<char>,
    is_healthy: bool,
    latency_us: nat,
    now: int,
) -> ServerHealthView {
    ServerHealthView {
        addr: addr,
        is_healthy: is_healthy,
        last_check: now,
        fail_count: if is_healthy {
            0
        } else {
            1
        },
        avg_latency_us: latency_us,
    }
}

/// The health table after a check of `addr`: the first record with that
/// address is refreshed, or a new one is appended if there is none.
pub open spec fn checked(
    servers: Seq<ServerHealthView>,
    addr: Seq<char>,
    is_healthy: bool,
    latency_us: nat,
    now: int,
) -> Seq<ServerHealthView> {
    if known(servers, addr) {
        let i = choose|i: int| first_match(servers, addr, i);
        servers.update(i, refreshed(servers[i], is_healthy, latency_us, now))
    } else {
        servers.push(first_seen(addr, is_healthy, latency_us, now))
    }
}

/// The monitor as a mathematical value.
pub struct MonitorModel {
    pub success_count: nat,
    pub failed_count: nat,
    pub timeout_count: nat,
    pub samples: Seq<u64>,
    pub servers: Seq<ServerHealthView>,
    pub start_time: int,
    pub total_stocks: nat,
}

impl MonitorModel {
    /// A monitor created at `now` for the given servers: nothing counted,
    /// no samples, every server healthy and just checked.
    pub open spec fn initial(addrs: Seq<Seq<char>>, now: int) -> MonitorModel {
        MonitorModel {
            success_count: 0,
            failed_count: 0,
            timeout_count: 0,
            samples: Seq::empty(),
            servers: Seq::new(
                addrs.len(),
                |i: int|
                    ServerHealthView {
                        addr: addrs[i],
                        is_healthy: true,
                        last_check: now,
                        fail_count: 0,
                        avg_latency_us: 0,
                    },
            ),
            start_time: now,
            total_stocks: 0,
        }
    }

    /// What always holds of a monitor: the sample window is respected.
    pub open spec fn wf(self) -> bool {
        self.samples.len() <= LATENCY_WINDOW
    }

    /// All attempts counted so far.
    pub open spec fn attempts(self) -> nat {
        self.success_count + self.failed_count + self.timeout_count
    }

    /// Seconds from the start to `now`; zero if the clock went back.
    pub open spec fn uptime(self, now: int) -> nat {
        if now >= self.start_time {
            (now - self.start_time) as nat
        } else {
            0
        }
    }

    /// The snapshot taken at `now`.
    pub open spec fn metrics(self, now: int) -> MetricsView {
        MetricsView {
            total_stocks: self.total_stocks,
            success_count: self.success_count,
            failed_count: self.failed_count,
            timeout_count: self.timeout_count,
            avg_latency_us: average(self.samples),
            last_update: now,
            uptime_secs: self.uptime(now),
            servers: self.servers,
            quality_score: quality(self.success_count, self.failed_count, self.timeout_count),
            data_freshness_secs: if self.uptime(now) > FRESHNESS_CAP_SECS {
                FRESHNESS_CAP_SECS as nat
            } else {
                self.uptime(now)
            },
        }
    }

    /// Rule: ten or more cumulative failures.
    pub open spec fn too_many_failures(self) -> bool {
        self.failed_count >= FAILURE_ALERT_COUNT
    }

    /// Rule: at least one server is known and none is healthy.
    pub open spec fn all_servers_down(self) -> bool {
        self.servers.len() > 0 && forall|i: int|
            0 <= i < self.servers.len() ==> !(#[trigger] self.servers[i]).is_healthy
    }

    /// Rule: under ninety percent success over more than a hundred attempts.
    pub open spec fn quality_low(self) -> bool {
        self.attempts() > QUALITY_ALERT_ATTEMPTS && self.success_count * 100
            < QUALITY_ALERT_PERCENT * self.attempts()
    }

    /// Rule: the mean latency is above one second.
    pub open spec fn latency_high(self) -> bool {
        sum(self.samples) > LATENCY_ALERT_US * self.samples.len()
    }

    /// The alerts derived at `now`, in the order of the rules.
    pub open spec fn alerts(self, now: int) -> Seq<AlertView> {
        (if self.too_many_failures() {
            seq![
                AlertView {
                    level: AlertLevel::Error,
                    message: "collection failed "@ + decimal_text(self.failed_count) + " times"@,
                    timestamp: now,
                    context: "collection"@,
                },
            ]
        } else {
            Seq::empty()
        }) + (if self.all_servers_down() {
            seq![
                AlertView {
                    level: AlertLevel::Critical,
                    message: "all servers are unavailable"@,
                    timestamp: now,
                    context: "servers"@,
                },
            ]
        } else {
            Seq::empty()
        }) + (if self.quality_low() {
            seq![
                AlertView {
                    level: AlertLevel::Warning,
                    message: "data quality score: "@ + tenths_text(
                        quality(self.success_count, self.failed_count, self.timeout_count) / 10,
                    ) + "%"@,
                    timestamp: now,
                    context: "quality"@,
                },
            ]
        } else {
            Seq::empty()
        }) + (if self.latency_high() {
            seq![
                AlertView {
                    level: AlertLevel::Warning,
                    message: "average latency too high: "@ + tenths_text(
                        average(self.samples) / 100,
                    ) + "ms"@,
                    timestamp: now,
                    context: "performance"@,
                },
            ]
        } else {
            Seq::empty()
        })
    }
}


/// The monitor: counters, latency window and health table.
pub struct CollectorMonitor {
    success_count: u64,
    failed_count: u64,
    timeout_count: u64,
    latency_samples: Vec<u64>,
    servers: Vec<ServerHealth>,
    start_time: i64,
    total_stocks: usize,
}

impl View for CollectorMonitor {
    type V = MonitorModel;

    closed spec fn view(&self) -> MonitorModel {
        MonitorModel {
            success_count: self.success_count as nat,
            failed_count: self.failed_count as nat,
            timeout_count: self.timeout_count as nat,
            samples: self.latency_samples@,
            servers: health_views(self.servers@),
            start_time: self.start_time as int,
            total_stocks: self.total_stocks as nat,
        }
    }
}

/// The sum of at most a window of samples fits well within 128 bits.
proof fn lemma_sum_bound(samples: Seq<u64>)
    ensures
        sum(samples) <= samples.len() * u64::MAX,
    decreases samples.len(),
{
    if samples.len() > 0 {
        lemma_sum_bound(samples.drop_last());
        assert(sum(samples.drop_last()) + samples.last() as nat <= (samples.len() - 1) * u64::MAX
            + u64::MAX);
        assert((samples.len() - 1) * u64::MAX + u64::MAX == samples.len() * u64::MAX)
            by (nonlinear_arith);
    }
}

fn sum_of(samples: &Vec<u64>) -> (total: u128)
    requires
        samples@.len() <= LATENCY_WINDOW,
    ensures
        total == sum(samples@),
        total <= samples@.len() * u64::MAX,
{
    let mut total: u128 = 0;
    let mut i: usize = 0;
    while i < samples.len()
        invariant
            i <= samples@.len() <= LATENCY_WINDOW,
            total == sum(samples@.subrange(0, i as int)),
            total <= i * u64::MAX,
        decreases samples@.len() - i,
    {
        proof {
            assert(samples@.subrange(0, i + 1).drop_last() =~= samples@.subrange(0, i as int));
            assert(i * u64::MAX + u64::MAX == (i + 1) * u64::MAX) by (nonlinear_arith);
            assert((i + 1) * u64::MAX <= 1000 * u64::MAX) by (nonlinear_arith)
                requires
                    i + 1 <= 1000,
            ;
        }
        total = total + samples[i] as u128;
        i += 1;
    }
    proof {
        assert(samples@.subrange(0, i as int) =~= samples@);
    }
    total
}

fn copy_servers(servers: &Vec<ServerHealth>) -> (copy: Vec<ServerHealth>)
    ensures
        health_views(copy@) == health_views(servers@),
{
    let mut copy: Vec<ServerHealth> = Vec::new();
    let mut i: usize = 0;
    while i < servers.len()
        invariant
            i <= servers@.len(),
            copy@.len() == i,
            forall|j: int| 0 <= j < i ==> (#[trigger] copy@[j])@ == servers@[j]@,
        decreases servers@.len() - i,
    {
        let s = &servers[i];
        copy.push(
            ServerHealth {
                addr: s.addr.clone(),
                is_healthy: s.is_healthy,
                last_check: s.last_check,
                fail_count: s.fail_count,
                avg_latency_us: s.avg_latency_us,
            },
        );
        i += 1;
    }
    assert(health_views(copy@) =~= health_views(servers@));
    copy
}

fn make_alert(level: AlertLevel, message: String, now: i64, context: &str) -> (alert: Alert)
    ensures
        alert@ == (AlertView {
            level: level,
            message: message@,
            timestamp: now as int,
            context: context@,
        }),
{
    Alert { level: level, message: message, timestamp: now, context: String::from_str(context) }
}

impl CollectorMonitor {
    /// The validity of the monitor's state.
    pub open spec fn wf(&self) -> bool {
        self@.wf()
    }

    /// A monitor created at the instant `now` for the given servers.
    pub fn new_at(servers: Vec<String>, now: i64) -> (monitor: Self)
        ensures
            monitor@ == MonitorModel::initial(texts(servers@), now as int),
            monitor.wf(),
    {
        let mut health: Vec<ServerHealth> = Vec::new();
        let mut i: usize = 0;
        while i < servers.len()
            invariant
                i <= servers@.len(),
                health@.len() == i,
                forall|j: int|
                    0 <= j < i ==> (#[trigger] health@[j])@ == (ServerHealthView {
                        addr: servers@[j]@,
                        is_healthy: true,
                        last_check: now as int,
                        fail_count: 0,
                        avg_latency_us: 0,
                    }),
            decreases servers@.len() - i,
        {
            health.push(
                ServerHealth {
                    addr: servers[i].clone(),
                    is_healthy: true,
                    last_check: now,
                    fail_count: 0,
                    avg_latency_us: 0,
                },
            );
            i += 1;
        }
        let monitor = CollectorMonitor {
            success_count: 0,
            failed_count: 0,
            timeout_count: 0,
            latency_samples: Vec::new(),
            servers: health,
            start_time: now,
            total_stocks: 0,
        };
        assert(monitor@.servers =~= MonitorModel::initial(texts(servers@), now as int).servers);
        assert(monitor@.samples =~= Seq::<u64>::empty());
        monitor
    }

    /// A monitor created at the instant the clock shows.
    pub fn new(servers: Vec<String>) -> (monitor: Self)
        ensures
            exists|now: int| now >= 0 && monitor@ == #[trigger] MonitorModel::initial(texts(servers@), now),
            monitor.wf(),
    {
        let now: i64 = now_timestamp();
        let ghost addrs = texts(servers@);
        let monitor = Self::new_at(servers, now);
        assert(monitor@ == MonitorModel::initial(addrs, now as int));
        monitor
    }

    /// Counts one successful collection.
    pub fn record_success(&mut self)
        ensures
            final(self)@ == (MonitorModel {
                success_count: bump(old(self)@.success_count),
                ..old(self)@
            }),
    {
        self.success_count = if self.success_count == u64::MAX {
            0
        } else {
            self.success_count + 1
        };
    }

    /// Counts one failed collection.
    pub fn record_failure(&mut self)
        ensures
            final(self)@ == (MonitorModel {
                failed_count: bump(old(self)@.failed_count),
                ..old(self)@
            }),
    {
        self.failed_count = if self.failed_count == u64::MAX {
            0
        } else {
            self.failed_count + 1
        };
    }

    /// Counts one timed-out collection.
    pub fn record_timeout(&mut self)
        ensures
            final(self)@ == (MonitorModel {
                timeout_count: bump(old(self)@.timeout_count),
                ..old(self)@
            }),
    {
        self.timeout_count = if self.timeout_count == u64::MAX {
            0
        } else {
            self.timeout_count + 1
        };
    }

    /// Records one latency sample, evicting the oldest beyond the window.
    pub fn record_latency(&mut self, latency_us: u64)
        requires
            old(self).wf(),
        ensures
            final(self)@ == (MonitorModel {
                samples: push_sample(old(self)@.samples, latency_us),
                ..old(self)@
            }),
            final(self).wf(),
    {
        self.latency_samples.push(latency_us);
        if self.latency_samples.len() > LATENCY_WINDOW {
            self.latency_samples.remove(0);
        }
    }

    /// The mean of the kept samples in microseconds, rounded down; zero
    /// when there is none.
    pub fn get_avg_latency(&self) -> (avg: u64)
        requires
            self.wf(),
        ensures
            avg == average(self@.samples),
    {
        let n: usize = self.latency_samples.len();
        if n == 0 {
            return 0;
        }
        let total: u128 = sum_of(&self.latency_samples);
        assert(total / (n as u128) <= u64::MAX) by (nonlinear_arith)
            requires
                total <= n * u64::MAX,
                n > 0,
        ;
        (total / (n as u128)) as u64
    }

    /// Takes note of a check of `addr` made at the instant `now`.
    pub fn update_server_health_at(
        &mut self,
        addr: String,
        is_healthy: bool,
        latency_us: u64,
        now: i64,
    )
        ensures
            final(self)@ == (MonitorModel {
                servers: checked(
                    old(self)@.servers,
                    addr@,
                    is_healthy,
                    latency_us as nat,
                    now as int,
                ),
                ..old(self)@
            }),
    {
        let ghost before = health_views(self.servers@);
        let mut i: usize = 0;
        while i < self.servers.len()
            invariant
                i <= self.servers@.len(),
                *self == *old(self),
                before == health_views(self.servers@),
                forall|j: int| 0 <= j < i ==> (#[trigger] before[j]).addr != addr@,
            decreases self.servers@.len() - i,
        {
            if self.servers[i].addr == addr {
                let s = &self.servers[i];
                let smoothed: u64 = ((s.avg_latency_us as u128 * 9 + latency_us as u128)
                    / 10) as u64;
                let record = ServerHealth {
                    addr: addr,
                    is_healthy: is_healthy,
                    last_check: now,
                    fail_count: if is_healthy {
                        0
                    } else if s.fail_count == usize::MAX {
                        s.fail_count
                    } else {
                        s.fail_count + 1
                    },
                    avg_latency_us: smoothed,
                };
                proof {
                    assert(first_match(before, record.addr@, i as int));
                    assert(known(before, record.addr@));
                    let c = choose|c: int| first_match(before, record.addr@, c);
                    assert(c == i);
                    assert(record@ == refreshed(
                        before[i as int],
                        is_healthy,
                        latency_us as nat,
                        now as int,
                    ));
                }
                self.servers.set(i, record);
                assert(health_views(self.servers@) =~= before.update(i as int, record@));
                return ;
            }
            i += 1;
        }
        let record = ServerHealth {
            addr: addr,
            is_healthy: is_healthy,
            last_check: now,
            fail_count: if is_healthy {
                0
            } else {
                1
            },
            avg_latency_us: latency_us,
        };
        assert(!known(before, record.addr@));
        self.servers.push(record);
        assert(health_views(self.servers@) =~= before.push(record@));
    }

    /// Takes note of a check of `addr` made now.
    pub fn update_server_health(&mut self, addr: String, is_healthy: bool, latency_us: u64)
        ensures
            exists|now: int|
                now >= 0 && final(self)@ == (MonitorModel {
                    servers: #[trigger] checked(
                        old(self)@.servers,
                        addr@,
                        is_healthy,
                        latency_us as nat,
                        now,
                    ),
                    ..old(self)@
                }),
    {
        let now: i64 = now_timestamp();
        let ghost before = self@;
        let ghost text = addr@;
        self.update_server_health_at(addr, is_healthy, latency_us, now);
        assert(self@ == (MonitorModel {
            servers: checked(before.servers, text, is_healthy, latency_us as nat, now as int),
            ..before
        }));
    }

    /// Sets the number of stocks under collection.
    pub fn set_total_stocks(&mut self, count: usize)
        ensures
            final(self)@ == (MonitorModel { total_stocks: count as nat, ..old(self)@ }),
    {
        self.total_stocks = count;
    }

    /// The snapshot taken at the instant `now`.
    pub fn get_metrics_at(&self, now: i64) -> (metrics: CollectionMetrics)
        requires
            self.wf(),
        ensures
            metrics@ == self@.metrics(now as int),
    {
        let attempts: u128 = self.success_count as u128 + self.failed_count as u128
            + self.timeout_count as u128;
        let quality_score: u64 = if attempts > 0 {
            let scaled: u128 = 2 * (self.success_count as u128) * 10_000 + attempts;
            let twice: u128 = 2 * attempts;
            assert(scaled / twice <= 10_000) by (nonlinear_arith)
                requires
                    scaled == 2 * self.success_count * 10_000 + attempts,
                    twice == 2 * attempts,
                    attempts >= self.success_count,
                    attempts > 0,
            ;
            (scaled / twice) as u64
        } else {
            FULL_SCORE
        };
        let uptime_secs: u64 = if now >= self.start_time {
            (now as i128 - self.start_time as i128) as u64
        } else {
            0
        };
        CollectionMetrics {
            total_stocks: self.total_stocks,
            success_count: self.success_count,
            failed_count: self.failed_count,
            timeout_count: self.timeout_count,
            avg_latency_us: self.get_avg_latency(),
            last_update: now,
            uptime_secs: uptime_secs,
            servers: copy_servers(&self.servers),
            quality_score: quality_score,
            data_freshness_secs: if uptime_secs > FRESHNESS_CAP_SECS {
                FRESHNESS_CAP_SECS
            } else {
                uptime_secs
            },
        }
    }

    /// The snapshot taken now.
    pub fn get_metrics(&self) -> (metrics: CollectionMetrics)
        requires
            self.wf(),
        ensures
            exists|now: int| now >= 0 && metrics@ == #[trigger] self@.metrics(now),
    {
        let now: i64 = now_timestamp();
        let metrics = self.get_metrics_at(now);
        assert(metrics@ == self@.metrics(now as int));
        metrics
    }

    fn all_down(&self) -> (down: bool)
        ensures
            down == self@.all_servers_down(),
    {
        if self.servers.len() == 0 {
            return false;
        }
        let mut i: usize = 0;
        while i < self.servers.len()
            invariant
                i <= self.servers@.len(),
                forall|j: int| 0 <= j < i ==> !(#[trigger] self@.servers[j]).is_healthy,
            decreases self.servers@.len() - i,
        {
            if self.servers[i].is_healthy {
                assert(self@.servers[i as int].is_healthy);
                return false;
            }
            i += 1;
        }
        true
    }

    /// The alerts that the rules derive at the instant `now`, in the order
    /// of the rules. Nothing is stored: every call starts afresh.
    pub fn check_alerts_at(&self, now: i64) -> (alerts: Vec<Alert>)
        requires
            self.wf(),
        ensures
            alert_views(alerts@) == self@.alerts(now as int),
    {
        let mut alerts: Vec<Alert> = Vec::new();
        let ghost mut seen: Seq<AlertView> = Seq::empty();
        assert(alert_views(alerts@) =~= seen);
        if self.failed_count >= FAILURE_ALERT_COUNT {
            let message = String::from_str("collection failed ").concat(
                decimal(self.failed_count).as_str(),
            ).concat(" times");
            let alert = make_alert(AlertLevel::Error, message, now, "collection");
            proof {
                seen = seen.push(alert@);
            }
            alerts.push(alert);
            assert(alert_views(alerts@) =~= seen);
        }
        if self.all_down() {
            let alert = make_alert(
                AlertLevel::Critical,
                String::from_str("all servers are unavailable"),
                now,
                "servers",
            );
            proof {
                seen = seen.push(alert@);
            }
            alerts.push(alert);
            assert(alert_views(alerts@) =~= seen);
        }
        let attempts: u128 = self.success_count as u128 + self.failed_count as u128
            + self.timeout_count as u128;
        if attempts > 100 && self.success_count as u128 * 100 < 90 * attempts {
            let scaled: u128 = 2 * (self.success_count as u128) * 10_000 + attempts;
            let twice: u128 = 2 * attempts;
            assert(scaled / twice <= 10_000) by (nonlinear_arith)
                requires
                    scaled == 2 * self.success_count * 10_000 + attempts,
                    twice == 2 * attempts,
                    attempts >= self.success_count,
                    attempts > 0,
            ;
            let score: u64 = (scaled / twice) as u64;
            let message = String::from_str("data quality score: ").concat(
                tenths(score / 10).as_str(),
            ).concat("%");
            let alert = make_alert(AlertLevel::Warning, message, now, "quality");
            proof {
                seen = seen.push(alert@);
            }
            alerts.push(alert);
            assert(alert_views(alerts@) =~= seen);
        }
        let total: u128 = sum_of(&self.latency_samples);
        if total > 1_000_000 * (self.latency_samples.len() as u128) {
            let avg: u64 = self.get_avg_latency();
            let message = String::from_str("average latency too high: ").concat(
                tenths(avg / 100).as_str(),
            ).concat("ms");
            let alert = make_alert(AlertLevel::Warning, message, now, "performance");
            proof {
                seen = seen.push(alert@);
            }
            alerts.push(alert);
            assert(alert_views(alerts@) =~= seen);
        }
        assert(seen =~= self@.alerts(now as int));
        alerts
    }

    /// The alerts that the rules derive now.
    pub fn check_alerts(&self) -> (alerts: Vec<Alert>)
        requires
            self.wf(),
        ensures
            exists|now: int| now >= 0 && alert_views(alerts@) == #[trigger] self@.alerts(now),
    {
        let now: i64 = now_timestamp();
        let alerts = self.check_alerts_at(now);
        assert(alert_views(alerts@) == self@.alerts(now as int));
        alerts
    }

    /// Zeroes the three counters. Samples and health records stay.
    pub fn reset_counters(&mut self)
        ensures
            final(self)@ == (MonitorModel {
                success_count: 0,
                failed_count: 0,
                timeout_count: 0,
                ..old(self)@
            }),
    {
        self.success_count = 0;
        self.failed_count = 0;
        self.timeout_count = 0;
    }
}


/// Ten or more cumulative failures always put an error alert first, and no
/// error alert is raised with fewer.
pub proof fn law_failures_raise_error(m: MonitorModel, now: int)
    ensures
        m.failed_count >= FAILURE_ALERT_COUNT ==> m.alerts(now).len() >= 1 && m.alerts(now)[0].level
            == AlertLevel::Error,
        m.failed_count < FAILURE_ALERT_COUNT ==> forall|i: int|
            0 <= i < m.alerts(now).len() ==> (#[trigger] m.alerts(now)[i]).level
                != AlertLevel::Error,
{
}

/// Resetting the counters leaves no failure behind: the score is full again
/// and neither the failure rule nor the quality rule fires, whatever was
/// counted before. Health records and samples are the ones from before.
pub proof fn law_reset_clears_counts(m: MonitorModel, now: int)
    ensures
        ({
            let r = MonitorModel { success_count: 0, failed_count: 0, timeout_count: 0, ..m };
            &&& r.metrics(now).quality_score == FULL_SCORE
            &&& !r.too_many_failures()
            &&& !r.quality_low()
            &&& r.servers == m.servers
            &&& r.samples == m.samples
            &&& r.metrics(now).avg_latency_us == m.metrics(now).avg_latency_us
        }),
{
}

/// The quality score never exceeds the full score, is full when nothing
/// failed or timed out, and is the hundredth nearest to the true share: it
/// is off by at most half a hundredth.
pub proof fn law_quality_range(success: nat, failed: nat, timeout: nat)
    ensures
        quality(success, failed, timeout) <= FULL_SCORE,
        failed + timeout == 0 ==> quality(success, failed, timeout) == FULL_SCORE,
        success + failed + timeout > 0 ==> {
            let total = success + failed + timeout;
            let q = quality(success, failed, timeout);
            2 * success * FULL_SCORE - total < 2 * q * total <= 2 * success * FULL_SCORE + total
        },
{
    let total = success + failed + timeout;
    if total > 0 {
        let x = 2 * success * 10_000 + total;
        let q = x / (2 * total);
        assert(q == quality(success, failed, timeout));
        assert(x == (2 * total) * q + x % (2 * total) && 0 <= x % (2 * total) < 2 * total) by {
            vstd::arithmetic::div_mod::lemma_fundamental_div_mod(x as int, (2 * total) as int);
            vstd::arithmetic::div_mod::lemma_mod_bound(x as int, (2 * total) as int);
        }
        assert(2 * q * total == (2 * total) * q) by (nonlinear_arith);
        assert(q <= 10_000) by (nonlinear_arith)
            requires
                x == (2 * total) * q + x % (2 * total),
                0 <= x % (2 * total),
                x == 2 * success * 10_000 + total,
                success <= total,
                total > 0,
        ;
        if failed + timeout == 0 {
            assert(q >= 10_000) by (nonlinear_arith)
                requires
                    x == (2 * total) * q + x % (2 * total),
                    x % (2 * total) < 2 * total,
                    x == 2 * success * 10_000 + total,
                    success == total,
                    total > 0,
            ;
        }
    }
}

/// The latency window is a bounded queue: the newest sample is always the
/// last one kept, a window that is not full only grows, and a full one
/// loses exactly its oldest sample.
pub proof fn law_window_is_fifo(samples: Seq<u64>, sample: u64)
    requires
        samples.len() <= LATENCY_WINDOW,
    ensures
        push_sample(samples, sample).len() <= LATENCY_WINDOW,
        push_sample(samples, sample).last() == sample,
        samples.len() < LATENCY_WINDOW ==> push_sample(samples, sample) == samples.push(sample),
        samples.len() == LATENCY_WINDOW ==> push_sample(samples, sample) == samples.subrange(
            1,
            samples.len() as int,
        ).push(sample),
{
    if samples.len() == LATENCY_WINDOW {
        assert(samples.push(sample).remove(0) =~= samples.subrange(1, samples.len() as int).push(
            sample,
        ));
    }
}

/// A check of an unknown address appends its record and touches no other;
/// a check of a known address keeps the table's length and addresses.
pub proof fn law_check_touches_one_record(
    servers: Seq<ServerHealthView>,
    addr: Seq<char>,
    is_healthy: bool,
    latency_us: nat,
    now: int,
)
    ensures
        known(checked(servers, addr, is_healthy, latency_us, now), addr),
        !known(servers, addr) ==> checked(servers, addr, is_healthy, latency_us, now)
            == servers.push(first_seen(addr, is_healthy, latency_us, now)),
        known(servers, addr) ==> {
            let after = checked(servers, addr, is_healthy, latency_us, now);
            &&& after.len() == servers.len()
            &&& forall|i: int|
                0 <= i < servers.len() ==> (#[trigger] after[i]).addr == servers[i].addr
            &&& forall|i: int|
                0 <= i < servers.len() && servers[i].addr != addr ==> #[trigger] after[i]
                    == servers[i]
        },
{
    let after = checked(servers, addr, is_healthy, latency_us, now);
    if known(servers, addr) {
        let w = choose|i: int| 0 <= i < servers.len() && (#[trigger] servers[i]).addr == addr;
        lemma_first_match_exists(servers, addr, w);
        let i = choose|i: int| first_match(servers, addr, i);
        assert(after[i].addr == addr);
    } else {
        assert(after[servers.len() as int].addr == addr);
    }
}

/// If some record up to `bound` has the address, one of them is the first.
proof fn lemma_first_match_exists(servers: Seq<ServerHealthView>, addr: Seq<char>, bound: int)
    requires
        0 <= bound < servers.len(),
        servers[bound].addr == addr,
    ensures
        exists|i: int| first_match(servers, addr, i),
    decreases bound,
{
    if exists|j: int| 0 <= j < bound && (#[trigger] servers[j]).addr == addr {
        let j = choose|j: int| 0 <= j < bound && (#[trigger] servers[j]).addr == addr;
        lemma_first_match_exists(servers, addr, j);
    } else {
        assert(first_match(servers, addr, bound));
    }
}

} // verus!
