//! The shared configuration store and the logging front end.
//!
//! One [`TheLogger`] holds the process's configuration behind a
//! reader/writer lock. Any number of callers may render records while
//! others retune the configuration: every mutator takes the write side of
//! the lock for one atomic read-modify-write, and a render takes the read
//! side exactly once, so each line is built from one consistent snapshot
//! — never from fields read under different acquisitions.
//!
//! The store performs no I/O: a render returns the finished line, and the
//! caller appends it to its sink under whatever exclusive access that
//! sink needs.

use vstd::prelude::*;
use vstd::rwlock::RwLock;
use vstd::rwlock::RwLockPredicate;

use crate::clock::Timestamp;
use crate::clock::current_timestamp;
use crate::config::LogLevel;
use crate::config::TheLoggerConfig;
use crate::render::compose_line;
use crate::render::log_line;

verus! {

/// The lock predicate for the configuration: every configuration value is
/// a valid one, so the lock imposes no constraint.
pub struct AnyConfig;

impl RwLockPredicate<TheLoggerConfig> for AnyConfig {
    open spec fn inv(self, v: TheLoggerConfig) -> bool {
        true
    }
}

/// A logger: one shared configuration under a reader/writer lock.
///
/// The mutating methods mirror the builder methods of
/// [`TheLoggerConfig`], each as one atomic write returning `self` for
/// chaining; [`TheLogger::render_record`] reads one snapshot and renders
/// a line from it.
pub struct TheLogger {
    config: RwLock<TheLoggerConfig, AnyConfig>,
}

impl TheLogger {
    /// A logger with the default configuration.
    pub fn new() -> Self {
        TheLogger { config: RwLock::new(TheLoggerConfig::default(), Ghost(AnyConfig)) }
    }

    /// A logger starting from the given configuration.
    pub fn with_config(logger_config: TheLoggerConfig) -> Self {
        TheLogger { config: RwLock::new(logger_config, Ghost(AnyConfig)) }
    }

    /// Replaces the whole configuration atomically with the given one.
    pub fn config(&self, logger_config: TheLoggerConfig) -> (r: &Self)
        ensures
            r == self,
    {
        let (_, handle) = self.config.acquire_write();
        handle.release_write(logger_config);
        self
    }

    /// Reads the whole configuration under a single read acquisition: one
    /// consistent snapshot.
    pub fn snapshot(&self) -> TheLoggerConfig {
        let handle = self.config.acquire_read();
        let cfg = *handle.borrow();
        handle.release_read();
        cfg
    }

    /// Renders one record against the current configuration: takes one
    /// consistent snapshot, reads the clock in the snapshot's timezone,
    /// and returns the finished line. Whatever mutations run concurrently,
    /// the result is [`log_line`] of a single configuration value and a
    /// single in-range timestamp.
    pub fn render_record(&self, file: &str, line: u32, column: u32, msg: &str) -> (r: String)
        ensures
            exists|cfg: TheLoggerConfig, ts: Timestamp|
                ts.wf() && r@ == log_line(cfg, ts, file@, line, column, msg@),
    {
        let cfg = self.snapshot();
        let ts = current_timestamp(cfg.get_utc_config());
        let r = compose_line(&cfg, &ts, file, line, column, msg);
        proof {
            assert(ts.wf() && r@ == log_line(cfg, ts, file@, line, column, msg@));
        }
        r
    }

    // Severity selection

    /// Selects the `Verbose` severity.
    pub fn verbose(&self) -> (r: &Self)
        ensures
            r == self,
    {
        let (mut cfg, handle) = self.config.acquire_write();
        cfg.set_log_level(LogLevel::Verbose);
        handle.release_write(cfg);
        self
    }

    /// Selects the `Information` severity.
    pub fn info(&self) -> (r: &Self)
        ensures
            r == self,
    {
        let (mut cfg, handle) = self.config.acquire_write();
        cfg.set_log_level(LogLevel::Information);
        handle.release_write(cfg);
        self
    }

    /// Selects the `Error` severity.
    pub fn error(&self) -> (r: &Self)
        ensures
            r == self,
    {
        let (mut cfg, handle) = self.config.acquire_write();
        cfg.set_log_level(LogLevel::Error);
        handle.release_write(cfg);
        self
    }

    /// Selects the `Warning` severity.
    pub fn warning(&self) -> (r: &Self)
        ensures
            r == self,
    {
        let (mut cfg, handle) = self.config.acquire_write();
        cfg.set_log_level(LogLevel::Warning);
        handle.release_write(cfg);
        self
    }

    /// Selects the `Debug` severity.
    pub fn debug(&self) -> (r: &Self)
        ensures
            r == self,
    {
        let (mut cfg, handle) = self.config.acquire_write();
        cfg.set_log_level(LogLevel::Debug);
        handle.release_write(cfg);
        self
    }

    /// Selects the `Trace` severity.
    pub fn trace(&self) -> (r: &Self)
        ensures
            r == self,
    {
        let (mut cfg, handle) = self.config.acquire_write();
        cfg.set_log_level(LogLevel::Trace);
        handle.release_write(cfg);
        self
    }

    /// Selects the `Critical` severity.
    pub fn critical(&self) -> (r: &Self)
        ensures
            r == self,
    {
        let (mut cfg, handle) = self.config.acquire_write();
        cfg.set_log_level(LogLevel::Critical);
        handle.release_write(cfg);
        self
    }

    // Display toggles

    /// Hides the year in the timestamp section.
    pub fn hide_years(&self) -> (r: &Self)
        ensures
            r == self,
    {
        let (mut cfg, handle) = self.config.acquire_write();
        cfg.set_years_config(true);
        handle.release_write(cfg);
        self
    }

    /// Hides the month in the timestamp section.
    pub fn hide_months(&self) -> (r: &Self)
        ensures
            r == self,
    {
        let (mut cfg, handle) = self.config.acquire_write();
        cfg.set_months_config(true);
        handle.release_write(cfg);
        self
    }

    /// Hides the day in the timestamp section.
    pub fn hide_days(&self) -> (r: &Self)
        ensures
            r == self,
    {
        let (mut cfg, handle) = self.config.acquire_write();
        cfg.set_days_config(true);
        handle.release_write(cfg);
        self
    }

    /// Hides the hours in the timestamp section.
    pub fn hide_hours(&self) -> (r: &Self)
        ensures
            r == self,
    {
        let (mut cfg, handle) = self.config.acquire_write();
        cfg.set_hours_config(true);
        handle.release_write(cfg);
        self
    }

    /// Hides the minutes in the timestamp section.
    pub fn hide_minutes(&self) -> (r: &Self)
        ensures
            r == self,
    {
        let (mut cfg, handle) = self.config.acquire_write();
        cfg.set_minutes_config(true);
        handle.release_write(cfg);
        self
    }

    /// Hides the seconds in the timestamp section.
    pub fn hide_seconds(&self) -> (r: &Self)
        ensures
            r == self,
    {
        let (mut cfg, handle) = self.config.acquire_write();
        cfg.set_seconds_config(true);
        handle.release_write(cfg);
        self
    }

    /// Hides the whole sub-second fraction.
    pub fn hide_millisecs(&self) -> (r: &Self)
        ensures
            r == self,
    {
        let (mut cfg, handle) = self.config.acquire_write();
        cfg.set_millisecs_config(true);
        handle.release_write(cfg);
        self
    }

    /// Stops the sub-second fraction at milliseconds.
    pub fn hide_microsecs(&self) -> (r: &Self)
        ensures
            r == self,
    {
        let (mut cfg, handle) = self.config.acquire_write();
        cfg.set_microsecs_config(true);
        handle.release_write(cfg);
        self
    }

    /// Renders timestamps in UTC.
    pub fn utc_time(&self) -> (r: &Self)
        ensures
            r == self,
    {
        let (mut cfg, handle) = self.config.acquire_write();
        cfg.set_utc_config(true);
        handle.release_write(cfg);
        self
    }

    /// Hides the severity tag.
    pub fn hide_level(&self) -> (r: &Self)
        ensures
            r == self,
    {
        let (mut cfg, handle) = self.config.acquire_write();
        cfg.set_level_config(true);
        handle.release_write(cfg);
        self
    }

    /// Shows the year in the timestamp section.
    pub fn show_years(&self) -> (r: &Self)
        ensures
            r == self,
    {
        let (mut cfg, handle) = self.config.acquire_write();
        cfg.set_years_config(false);
        handle.release_write(cfg);
        self
    }

    /// Shows the month in the timestamp section.
    pub fn show_months(&self) -> (r: &Self)
        ensures
            r == self,
    {
        let (mut cfg, handle) = self.config.acquire_write();
        cfg.set_months_config(false);
        handle.release_write(cfg);
        self
    }

    /// Shows the day in the timestamp section.
    pub fn show_days(&self) -> (r: &Self)
        ensures
            r == self,
    {
        let (mut cfg, handle) = self.config.acquire_write();
        cfg.set_days_config(false);
        handle.release_write(cfg);
        self
    }

    /// Shows the hours in the timestamp section.
    pub fn show_hours(&self) -> (r: &Self)
        ensures
            r == self,
    {
        let (mut cfg, handle) = self.config.acquire_write();
        cfg.set_hours_config(false);
        handle.release_write(cfg);
        self
    }

    /// Shows the minutes in the timestamp section.
    pub fn show_minutes(&self) -> (r: &Self)
        ensures
            r == self,
    {
        let (mut cfg, handle) = self.config.acquire_write();
        cfg.set_minutes_config(false);
        handle.release_write(cfg);
        self
    }

    /// Shows the seconds in the timestamp section.
    pub fn show_seconds(&self) -> (r: &Self)
        ensures
            r == self,
    {
        let (mut cfg, handle) = self.config.acquire_write();
        cfg.set_seconds_config(false);
        handle.release_write(cfg);
        self
    }

    /// Shows the milliseconds.
    pub fn show_millisecs(&self) -> (r: &Self)
        ensures
            r == self,
    {
        let (mut cfg, handle) = self.config.acquire_write();
        cfg.set_millisecs_config(false);
        handle.release_write(cfg);
        self
    }

    /// Shows the microseconds.
    pub fn show_microsecs(&self) -> (r: &Self)
        ensures
            r == self,
    {
        let (mut cfg, handle) = self.config.acquire_write();
        cfg.set_microsecs_config(false);
        handle.release_write(cfg);
        self
    }

    /// Renders timestamps in local time.
    pub fn local_time(&self) -> (r: &Self)
        ensures
            r == self,
    {
        let (mut cfg, handle) = self.config.acquire_write();
        cfg.set_utc_config(false);
        handle.release_write(cfg);
        self
    }

    /// Shows the severity tag.
    pub fn show_level(&self) -> (r: &Self)
        ensures
            r == self,
    {
        let (mut cfg, handle) = self.config.acquire_write();
        cfg.set_level_config(false);
        handle.release_write(cfg);
        self
    }

    // Width limits

    /// Sets the width of the location section.
    pub fn location_content_length(&self, length: usize) -> (r: &Self)
        ensures
            r == self,
    {
        let (mut cfg, handle) = self.config.acquire_write();
        cfg.set_location_length(length);
        handle.release_write(cfg);
        self
    }

    /// Sets the width limit of the message section.
    pub fn log_content_length(&self, length: usize) -> (r: &Self)
        ensures
            r == self,
    {
        let (mut cfg, handle) = self.config.acquire_write();
        cfg.set_log_content_length(length);
        handle.release_write(cfg);
        self
    }
}

} // verus!
