//! The collection scheduler: a running flag and the trading-hours gate.
//!
//! The scheduler holds no timer. Whoever drives it ticks at the configured
//! interval and asks on every tick what to do.

use crate::clock::{current_hour, current_weekday, Weekday};
use crate::config::DataSourceConfig;
use crate::error::{AppError, ErrorKind};
use vstd::prelude::*;
use vstd::string::*;

verus! {

/// First hour of the trading window.
pub const TRADING_OPEN_HOUR: u32 = 9;

/// First hour after the trading window.
pub const TRADING_CLOSE_HOUR: u32 = 15;

/// A trading day is any day but Saturday and Sunday.
pub open spec fn trading_day(day: Weekday) -> bool {
    day != Weekday::Sat && day != Weekday::Sun
}

/// Trading hours are the hours from 9 up to, but not including, 15.
pub open spec fn trading_time(hour: int) -> bool {
    TRADING_OPEN_HOUR <= hour < TRADING_CLOSE_HOUR
}

/// What to do on a tick.
#[derive(Debug, Clone, Copy, PartialEq, Eq, Structural)]
pub enum TickAction {
    /// The scheduler was stopped: leave the loop.
    Stop,
    /// The market is open: trigger a collection cycle.
    Collect,
    /// The market is closed: do nothing this tick.
    Skip,
}

/// What a tick on `day` at `hour` calls for.
pub open spec fn tick(running: bool, day: Weekday, hour: int) -> TickAction {
    if !running {
        TickAction::Stop
    } else if trading_day(day) && trading_time(hour) {
        TickAction::Collect
    } else {
        TickAction::Skip
    }
}

/// The scheduler.
pub struct CollectionScheduler {
    interval_secs: u64,
    is_running: bool,
}

impl CollectionScheduler {
    /// The tick interval in seconds.
    pub closed spec fn spec_interval_secs(&self) -> u64 {
        self.interval_secs
    }

    /// Whether the scheduler is running.
    pub closed spec fn spec_is_running(&self) -> bool {
        self.is_running
    }

    /// A stopped scheduler that ticks at the configured update interval.
    pub fn new(config: &DataSourceConfig) -> (scheduler: Self)
        ensures
            scheduler.spec_interval_secs() == config.update_interval_secs,
            !scheduler.spec_is_running(),
    {
        CollectionScheduler { interval_secs: config.update_interval_secs, is_running: false }
    }

    /// Whether `day` is a trading day.
    pub fn is_trading_day_on(day: Weekday) -> (open: bool)
        ensures
            open == trading_day(day),
    {
        match day {
            Weekday::Sat => false,
            Weekday::Sun => false,
            _ => true,
        }
    }

    /// Whether `hour` lies in trading hours.
    pub fn is_trading_time_at(hour: u32) -> (open: bool)
        ensures
            open == trading_time(hour as int),
    {
        hour >= TRADING_OPEN_HOUR && hour < TRADING_CLOSE_HOUR
    }

    /// Whether the day the clock shows is a trading day.
    pub fn is_trading_day() -> (open: bool)
        ensures
            exists|day: Weekday| open == #[trigger] trading_day(day),
    {
        let day = current_weekday();
        let open = Self::is_trading_day_on(day);
        assert(open == trading_day(day));
        open
    }

    /// Whether the hour the clock shows lies in trading hours.
    pub fn is_trading_time() -> (open: bool)
        ensures
            exists|hour: int| 0 <= hour < 24 && open == #[trigger] trading_time(hour),
    {
        let hour: u32 = current_hour();
        let open = Self::is_trading_time_at(hour);
        assert(open == trading_time(hour as int));
        open
    }

    /// Starts the scheduler. Starting one that is running is a configuration
    /// error, as every conflict with something already running is, and it
    /// keeps running.
    pub fn start(&mut self) -> (r: Result<(), AppError>)
        ensures
            final(self).spec_is_running(),
            final(self).spec_interval_secs() == old(self).spec_interval_secs(),
            r is Ok <==> !old(self).spec_is_running(),
            r is Err ==> r->Err_0.spec_kind() == ErrorKind::Config,
    {
        if self.is_running {
            return Err(AppError::Config(String::from_str("the scheduler is already running")));
        }
        self.is_running = true;
        Ok(())
    }

    /// Asks the scheduler to stop. The loop learns of it on its next tick.
    pub fn stop(&mut self) -> (r: Result<(), AppError>)
        ensures
            !final(self).spec_is_running(),
            final(self).spec_interval_secs() == old(self).spec_interval_secs(),
            r is Ok,
    {
        self.is_running = false;
        Ok(())
    }

    /// Whether the scheduler is running.
    #[verifier::when_used_as_spec(spec_is_running)]
    pub fn is_running(&self) -> (running: bool)
        ensures
            running == self.spec_is_running(),
    {
        self.is_running
    }

    /// The tick interval in seconds.
    #[verifier::when_used_as_spec(spec_interval_secs)]
    pub fn interval_secs(&self) -> (secs: u64)
        ensures
            secs == self.spec_interval_secs(),
    {
        self.interval_secs
    }

    /// What a tick on `day` at `hour` calls for.
    pub fn on_tick_at(&self, day: Weekday, hour: u32) -> (action: TickAction)
        ensures
            action == tick(self.spec_is_running(), day, hour as int),
    {
        if !self.is_running {
            TickAction::Stop
        } else if Self::is_trading_day_on(day) && Self::is_trading_time_at(hour) {
            TickAction::Collect
        } else {
            TickAction::Skip
        }
    }

    /// What a tick at the time the clock shows calls for.
    pub fn on_tick(&self) -> (action: TickAction)
        ensures
            exists|day: Weekday, hour: int|
                0 <= hour < 24 && action == #[trigger] tick(self.spec_is_running(), day, hour),
            !self.spec_is_running() <==> action == TickAction::Stop,
    {
        let day = current_weekday();
        let hour: u32 = current_hour();
        let action = self.on_tick_at(day, hour);
        assert(action == tick(self.spec_is_running(), day, hour as int));
        action
    }
}

/// A stopped scheduler stops on every tick, whatever the time; a running one
/// collects exactly on Monday to Friday from 9 up to 15 o'clock.
pub proof fn law_tick_gate(running: bool, day: Weekday, hour: int)
    ensures
        tick(running, day, hour) == TickAction::Stop <==> !running,
        tick(running, day, hour) == TickAction::Collect <==> running && day != Weekday::Sat && day
            != Weekday::Sun && 9 <= hour < 15,
{
}

} // verus!
