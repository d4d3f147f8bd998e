//! The logger's configuration: a plain value with builder-style methods.
//!
//! Every display toggle is a `hide_*` flag (`false` means the field is
//! shown), except the call-site column, whose flag is `show_file_column`
//! (`false` means the column is hidden). The two width limits bound the
//! call-site section and the message section of a rendered line.
//!
//! The builders consume the value and return the updated one, so a
//! configuration is assembled by chaining and then swapped into the shared
//! store atomically; the getters and setters read and write one field each.

use vstd::prelude::*;

verus! {

/// The severity tag attached to a record.
#[derive(Clone, Copy, Debug, PartialEq, Eq, Structural)]
pub enum LogLevel {
    Verbose,
    Information,
    Error,
    Warning,
    Debug,
    Trace,
    Critical,
}

/// One configuration snapshot for the record formatter.
#[derive(Clone, Copy, Debug, PartialEq, Eq, Structural)]
pub struct TheLoggerConfig {
    pub hide_years: bool,
    pub hide_months: bool,
    pub hide_days: bool,
    pub hide_hours: bool,
    pub hide_minutes: bool,
    pub hide_seconds: bool,
    pub hide_millisecs: bool,
    pub hide_microsecs: bool,
    pub utc_time: bool,
    pub hide_level: bool,
    pub hide_file_name: bool,
    pub hide_file_line: bool,
    pub show_file_column: bool,
    pub location_length: usize,
    pub log_content_length: usize,
    pub log_level: LogLevel,
}

impl Default for TheLoggerConfig {
    /// Every date and time field shown, local time, level shown and set to
    /// `Verbose`, file name and line shown, column hidden, and the two
    /// default width limits (80 for the call site, 300 for the message).
    fn default() -> (r: Self)
        ensures
            r == TheLoggerConfig::spec_default(),
    {
        TheLoggerConfig {
            hide_years: false,
            hide_months: false,
            hide_days: false,
            hide_hours: false,
            hide_minutes: false,
            hide_seconds: false,
            hide_millisecs: false,
            hide_microsecs: false,
            utc_time: false,
            hide_level: false,
            hide_file_name: false,
            hide_file_line: false,
            show_file_column: false,
            location_length: 80,
            log_content_length: 300,
            log_level: LogLevel::Verbose,
        }
    }
}

impl TheLoggerConfig {
    /// The configuration `default` returns.
    pub open spec fn spec_default() -> Self {
        TheLoggerConfig {
            hide_years: false,
            hide_months: false,
            hide_days: false,
            hide_hours: false,
            hide_minutes: false,
            hide_seconds: false,
            hide_millisecs: false,
            hide_microsecs: false,
            utc_time: false,
            hide_level: false,
            hide_file_name: false,
            hide_file_line: false,
            show_file_column: false,
            location_length: 80,
            log_content_length: 300,
            log_level: LogLevel::Verbose,
        }
    }

    // Severity selection

    /// Selects the `Verbose` severity, whose tag is `[VERBOSE]`.
    pub fn verbose(self) -> (r: Self)
        ensures
            r == (TheLoggerConfig { log_level: LogLevel::Verbose, ..self }),
    {
        TheLoggerConfig { log_level: LogLevel::Verbose, ..self }
    }

    /// Selects the `Information` severity, whose tag is `[INFO]`.
    pub fn info(self) -> (r: Self)
        ensures
            r == (TheLoggerConfig { log_level: LogLevel::Information, ..self }),
    {
        TheLoggerConfig { log_level: LogLevel::Information, ..self }
    }

    /// Selects the `Error` severity, whose tag is `[ERROR]`.
    pub fn error(self) -> (r: Self)
        ensures
            r == (TheLoggerConfig { log_level: LogLevel::Error, ..self }),
    {
        TheLoggerConfig { log_level: LogLevel::Error, ..self }
    }

    /// Selects the `Warning` severity, whose tag is `[WARNING]`.
    pub fn warning(self) -> (r: Self)
        ensures
            r == (TheLoggerConfig { log_level: LogLevel::Warning, ..self }),
    {
        TheLoggerConfig { log_level: LogLevel::Warning, ..self }
    }

    /// Selects the `Debug` severity, whose tag is `[DEBUG]`.
    pub fn debug(self) -> (r: Self)
        ensures
            r == (TheLoggerConfig { log_level: LogLevel::Debug, ..self }),
    {
        TheLoggerConfig { log_level: LogLevel::Debug, ..self }
    }

    /// Selects the `Trace` severity, whose tag is `[TRACE]`.
    pub fn trace(self) -> (r: Self)
        ensures
            r == (TheLoggerConfig { log_level: LogLevel::Trace, ..self }),
    {
        TheLoggerConfig { log_level: LogLevel::Trace, ..self }
    }

    /// Selects the `Critical` severity, whose tag is `[CRITICAL]`.
    pub fn critical(self) -> (r: Self)
        ensures
            r == (TheLoggerConfig { log_level: LogLevel::Critical, ..self }),
    {
        TheLoggerConfig { log_level: LogLevel::Critical, ..self }
    }

    // Hiding toggles

    /// Hides the year in the timestamp section. Default is to show it.
    pub fn hide_years(self) -> (r: Self)
        ensures
            r == (TheLoggerConfig { hide_years: true, ..self }),
    {
        TheLoggerConfig { hide_years: true, ..self }
    }

    /// Hides the month in the timestamp section. Default is to show it.
    pub fn hide_months(self) -> (r: Self)
        ensures
            r == (TheLoggerConfig { hide_months: true, ..self }),
    {
        TheLoggerConfig { hide_months: true, ..self }
    }

    /// Hides the day in the timestamp section. Default is to show it.
    pub fn hide_days(self) -> (r: Self)
        ensures
            r == (TheLoggerConfig { hide_days: true, ..self }),
    {
        TheLoggerConfig { hide_days: true, ..self }
    }

    /// Hides the hours in the timestamp section. Default is to show them.
    pub fn hide_hours(self) -> (r: Self)
        ensures
            r == (TheLoggerConfig { hide_hours: true, ..self }),
    {
        TheLoggerConfig { hide_hours: true, ..self }
    }

    /// Hides the minutes in the timestamp section. Default is to show them.
    pub fn hide_minutes(self) -> (r: Self)
        ensures
            r == (TheLoggerConfig { hide_minutes: true, ..self }),
    {
        TheLoggerConfig { hide_minutes: true, ..self }
    }

    /// Hides the seconds in the timestamp section. Default is to show them.
    pub fn hide_seconds(self) -> (r: Self)
        ensures
            r == (TheLoggerConfig { hide_seconds: true, ..self }),
    {
        TheLoggerConfig { hide_seconds: true, ..self }
    }

    /// Hides the milliseconds. Default is to show them.
    ///
    /// While this flag is set the formatter emits no sub-second fraction at
    /// all, whatever the microsecond flag says: milliseconds hidden with
    /// microseconds shown would misorder the time stamps in the log.
    pub fn hide_millisecs(self) -> (r: Self)
        ensures
            r == (TheLoggerConfig { hide_millisecs: true, ..self }),
    {
        TheLoggerConfig { hide_millisecs: true, ..self }
    }

    /// Hides the microseconds, leaving a millisecond fraction. Default is
    /// to show them.
    pub fn hide_microsecs(self) -> (r: Self)
        ensures
            r == (TheLoggerConfig { hide_microsecs: true, ..self }),
    {
        TheLoggerConfig { hide_microsecs: true, ..self }
    }

    /// Renders timestamps in UTC. Default is local time.
    pub fn utc_time(self) -> (r: Self)
        ensures
            r == (TheLoggerConfig { utc_time: true, ..self }),
    {
        TheLoggerConfig { utc_time: true, ..self }
    }

    /// Hides the severity tag. Default is to show it.
    pub fn hide_level(self) -> (r: Self)
        ensures
            r == (TheLoggerConfig { hide_level: true, ..self }),
    {
        TheLoggerConfig { hide_level: true, ..self }
    }

    /// Hides the call-site file name, and with it the whole location
    /// section. Default is to show it.
    pub fn hide_file_name(self) -> (r: Self)
        ensures
            r == (TheLoggerConfig { hide_file_name: true, ..self }),
    {
        TheLoggerConfig { hide_file_name: true, ..self }
    }

    /// Hides the call-site line number. Default is to show it.
    pub fn hide_file_line(self) -> (r: Self)
        ensures
            r == (TheLoggerConfig { hide_file_line: true, ..self }),
    {
        TheLoggerConfig { hide_file_line: true, ..self }
    }

    /// Hides the call-site column number. Default is to hide it.
    pub fn hide_file_column(self) -> (r: Self)
        ensures
            r == (TheLoggerConfig { show_file_column: false, ..self }),
    {
        TheLoggerConfig { show_file_column: false, ..self }
    }

    // Showing toggles

    /// Shows the year in the timestamp section. Default is to show it.
    pub fn show_years(self) -> (r: Self)
        ensures
            r == (TheLoggerConfig { hide_years: false, ..self }),
    {
        TheLoggerConfig { hide_years: false, ..self }
    }

    /// Shows the month in the timestamp section. Default is to show it.
    pub fn show_months(self) -> (r: Self)
        ensures
            r == (TheLoggerConfig { hide_months: false, ..self }),
    {
        TheLoggerConfig { hide_months: false, ..self }
    }

    /// Shows the day in the timestamp section. Default is to show it.
    pub fn show_days(self) -> (r: Self)
        ensures
            r == (TheLoggerConfig { hide_days: false, ..self }),
    {
        TheLoggerConfig { hide_days: false, ..self }
    }

    /// Shows the hours in the timestamp section. Default is to show them.
    pub fn show_hours(self) -> (r: Self)
        ensures
            r == (TheLoggerConfig { hide_hours: false, ..self }),
    {
        TheLoggerConfig { hide_hours: false, ..self }
    }

    /// Shows the minutes in the timestamp section. Default is to show them.
    pub fn show_minutes(self) -> (r: Self)
        ensures
            r == (TheLoggerConfig { hide_minutes: false, ..self }),
    {
        TheLoggerConfig { hide_minutes: false, ..self }
    }

    /// Shows the seconds in the timestamp section. Default is to show them.
    pub fn show_seconds(self) -> (r: Self)
        ensures
            r == (TheLoggerConfig { hide_seconds: false, ..self }),
    {
        TheLoggerConfig { hide_seconds: false, ..self }
    }

    /// Shows the milliseconds. Default is to show them.
    pub fn show_millisecs(self) -> (r: Self)
        ensures
            r == (TheLoggerConfig { hide_millisecs: false, ..self }),
    {
        TheLoggerConfig { hide_millisecs: false, ..self }
    }

    /// Shows the microseconds. Default is to show them.
    pub fn show_microsecs(self) -> (r: Self)
        ensures
            r == (TheLoggerConfig { hide_microsecs: false, ..self }),
    {
        TheLoggerConfig { hide_microsecs: false, ..self }
    }

    /// Renders timestamps in local time, the default.
    pub fn local_time(self) -> (r: Self)
        ensures
            r == (TheLoggerConfig { utc_time: false, ..self }),
    {
        TheLoggerConfig { utc_time: false, ..self }
    }

    /// Shows the severity tag. Default is to show it.
    pub fn show_level(self) -> (r: Self)
        ensures
            r == (TheLoggerConfig { hide_level: false, ..self }),
    {
        TheLoggerConfig { hide_level: false, ..self }
    }

    /// Shows the call-site file name. Default is to show it.
    pub fn show_file_name(self) -> (r: Self)
        ensures
            r == (TheLoggerConfig { hide_file_name: false, ..self }),
    {
        TheLoggerConfig { hide_file_name: false, ..self }
    }

    /// Shows the call-site line number. Default is to show it.
    pub fn show_file_line(self) -> (r: Self)
        ensures
            r == (TheLoggerConfig { hide_file_line: false, ..self }),
    {
        TheLoggerConfig { hide_file_line: false, ..self }
    }

    /// Shows the call-site column number. Default is to hide it.
    pub fn show_file_column(self) -> (r: Self)
        ensures
            r == (TheLoggerConfig { show_file_column: true, ..self }),
    {
        TheLoggerConfig { show_file_column: true, ..self }
    }

    // Width limits

    /// Sets the width of the location section. Default is 80 characters.
    pub fn location_content_length(self, length: usize) -> (r: Self)
        ensures
            r == (TheLoggerConfig { location_length: length, ..self }),
    {
        TheLoggerConfig { location_length: length, ..self }
    }

    /// Sets the width limit of the message section. Default is 300
    /// characters.
    pub fn log_content_length(self, length: usize) -> (r: Self)
        ensures
            r == (TheLoggerConfig { log_content_length: length, ..self }),
    {
        TheLoggerConfig { log_content_length: length, ..self }
    }

    // Getters

    /// Reads the year flag: `true` means the year is hidden.
    pub fn get_years_config(&self) -> (r: bool)
        ensures
            r == self.hide_years,
    {
        self.hide_years
    }

    /// Reads the month flag: `true` means the month is hidden.
    pub fn get_months_config(&self) -> (r: bool)
        ensures
            r == self.hide_months,
    {
        self.hide_months
    }

    /// Reads the day flag: `true` means the day is hidden.
    pub fn get_days_config(&self) -> (r: bool)
        ensures
            r == self.hide_days,
    {
        self.hide_days
    }

    /// Reads the hour flag: `true` means the hours are hidden.
    pub fn get_hours_config(&self) -> (r: bool)
        ensures
            r == self.hide_hours,
    {
        self.hide_hours
    }

    /// Reads the minute flag: `true` means the minutes are hidden.
    pub fn get_minutes_config(&self) -> (r: bool)
        ensures
            r == self.hide_minutes,
    {
        self.hide_minutes
    }

    /// Reads the second flag: `true` means the seconds are hidden.
    pub fn get_seconds_config(&self) -> (r: bool)
        ensures
            r == self.hide_seconds,
    {
        self.hide_seconds
    }

    /// Reads the millisecond flag: `true` means no sub-second fraction is
    /// rendered at all.
    pub fn get_millisecs_config(&self) -> (r: bool)
        ensures
            r == self.hide_millisecs,
    {
        self.hide_millisecs
    }

    /// Reads the microsecond flag: `true` means the fraction stops at
    /// milliseconds.
    pub fn get_microsecs_config(&self) -> (r: bool)
        ensures
            r == self.hide_microsecs,
    {
        self.hide_microsecs
    }

    /// Reads the timezone flag: `true` means UTC, `false` local time.
    pub fn get_utc_config(&self) -> (r: bool)
        ensures
            r == self.utc_time,
    {
        self.utc_time
    }

    /// Reads the severity-tag flag: `true` means the tag is hidden.
    pub fn get_level_config(&self) -> (r: bool)
        ensures
            r == self.hide_level,
    {
        self.hide_level
    }

    /// Reads the file-name flag: `true` means the location section is
    /// omitted.
    pub fn get_file_name_config(&self) -> (r: bool)
        ensures
            r == self.hide_file_name,
    {
        self.hide_file_name
    }

    /// Reads the line-number flag: `true` means the line is hidden.
    pub fn get_file_line_config(&self) -> (r: bool)
        ensures
            r == self.hide_file_line,
    {
        self.hide_file_line
    }

    /// Reads the column flag: `true` means the column is shown.
    pub fn get_file_column_config(&self) -> (r: bool)
        ensures
            r == self.show_file_column,
    {
        self.show_file_column
    }

    /// Reads the selected severity.
    pub fn get_log_level(&self) -> (r: LogLevel)
        ensures
            r == self.log_level,
    {
        self.log_level
    }

    /// Reads the width of the location section.
    pub fn get_location_length(&self) -> (r: usize)
        ensures
            r == self.location_length,
    {
        self.location_length
    }

    /// Reads the width limit of the message section.
    pub fn get_log_content_length(&self) -> (r: usize)
        ensures
            r == self.log_content_length,
    {
        self.log_content_length
    }

    // Setters

    /// Writes the year flag: `true` hides the year.
    pub fn set_years_config(&mut self, data: bool)
        ensures
            *final(self) == (TheLoggerConfig { hide_years: data, ..*old(self) }),
    {
        self.hide_years = data;
    }

    /// Writes the month flag: `true` hides the month.
    pub fn set_months_config(&mut self, data: bool)
        ensures
            *final(self) == (TheLoggerConfig { hide_months: data, ..*old(self) }),
    {
        self.hide_months = data;
    }

    /// Writes the day flag: `true` hides the day.
    pub fn set_days_config(&mut self, data: bool)
        ensures
            *final(self) == (TheLoggerConfig { hide_days: data, ..*old(self) }),
    {
        self.hide_days = data;
    }

    /// Writes the hour flag: `true` hides the hours.
    pub fn set_hours_config(&mut self, data: bool)
        ensures
            *final(self) == (TheLoggerConfig { hide_hours: data, ..*old(self) }),
    {
        self.hide_hours = data;
    }

    /// Writes the minute flag: `true` hides the minutes.
    pub fn set_minutes_config(&mut self, data: bool)
        ensures
            *final(self) == (TheLoggerConfig { hide_minutes: data, ..*old(self) }),
    {
        self.hide_minutes = data;
    }

    /// Writes the second flag: `true` hides the seconds.
    pub fn set_seconds_config(&mut self, data: bool)
        ensures
            *final(self) == (TheLoggerConfig { hide_seconds: data, ..*old(self) }),
    {
        self.hide_seconds = data;
    }

    /// Writes the millisecond flag: `true` suppresses the whole sub-second
    /// fraction.
    pub fn set_millisecs_config(&mut self, data: bool)
        ensures
            *final(self) == (TheLoggerConfig { hide_millisecs: data, ..*old(self) }),
    {
        self.hide_millisecs = data;
    }

    /// Writes the microsecond flag: `true` stops the fraction at
    /// milliseconds.
    pub fn set_microsecs_config(&mut self, data: bool)
        ensures
            *final(self) == (TheLoggerConfig { hide_microsecs: data, ..*old(self) }),
    {
        self.hide_microsecs = data;
    }

    /// Writes the timezone flag: `true` selects UTC.
    pub fn set_utc_config(&mut self, data: bool)
        ensures
            *final(self) == (TheLoggerConfig { utc_time: data, ..*old(self) }),
    {
        self.utc_time = data;
    }

    /// Writes the severity-tag flag: `true` hides the tag.
    pub fn set_level_config(&mut self, data: bool)
        ensures
            *final(self) == (TheLoggerConfig { hide_level: data, ..*old(self) }),
    {
        self.hide_level = data;
    }

    /// Selects the severity.
    pub fn set_log_level(&mut self, data: LogLevel)
        ensures
            *final(self) == (TheLoggerConfig { log_level: data, ..*old(self) }),
    {
        self.log_level = data;
    }

    /// Sets the width of the location section.
    pub fn set_location_length(&mut self, data: usize)
        ensures
            *final(self) == (TheLoggerConfig { location_length: data, ..*old(self) }),
    {
        self.location_length = data;
    }

    /// Sets the width limit of the message section.
    pub fn set_log_content_length(&mut self, data: usize)
        ensures
            *final(self) == (TheLoggerConfig { log_content_length: data, ..*old(self) }),
    {
        self.log_content_length = data;
    }
}

/// Applying any `show_*` or `hide_*` toggle twice in a row yields the same
/// configuration as applying it once: each toggle writes a constant into
/// its field and leaves the rest alone, so the second application changes
/// nothing. The clauses below pair each toggle's update expression, as its
/// contract states it, with the doubled one.
pub proof fn lemma_toggle_twice_equals_once(c: TheLoggerConfig)
    ensures
        (TheLoggerConfig { hide_years: true, ..(TheLoggerConfig { hide_years: true, ..c }) })
            == (TheLoggerConfig { hide_years: true, ..c }),
        (TheLoggerConfig { hide_months: true, ..(TheLoggerConfig { hide_months: true, ..c }) })
            == (TheLoggerConfig { hide_months: true, ..c }),
        (TheLoggerConfig { hide_days: true, ..(TheLoggerConfig { hide_days: true, ..c }) })
            == (TheLoggerConfig { hide_days: true, ..c }),
        (TheLoggerConfig { hide_hours: true, ..(TheLoggerConfig { hide_hours: true, ..c }) })
            == (TheLoggerConfig { hide_hours: true, ..c }),
        (TheLoggerConfig { hide_minutes: true, ..(TheLoggerConfig { hide_minutes: true, ..c }) })
            == (TheLoggerConfig { hide_minutes: true, ..c }),
        (TheLoggerConfig { hide_seconds: true, ..(TheLoggerConfig { hide_seconds: true, ..c }) })
            == (TheLoggerConfig { hide_seconds: true, ..c }),
        (TheLoggerConfig {
            hide_millisecs: true,
            ..(TheLoggerConfig { hide_millisecs: true, ..c })
        }) == (TheLoggerConfig { hide_millisecs: true, ..c }),
        (TheLoggerConfig {
            hide_microsecs: true,
            ..(TheLoggerConfig { hide_microsecs: true, ..c })
        }) == (TheLoggerConfig { hide_microsecs: true, ..c }),
        (TheLoggerConfig { utc_time: true, ..(TheLoggerConfig { utc_time: true, ..c }) })
            == (TheLoggerConfig { utc_time: true, ..c }),
        (TheLoggerConfig { hide_level: true, ..(TheLoggerConfig { hide_level: true, ..c }) })
            == (TheLoggerConfig { hide_level: true, ..c }),
        (TheLoggerConfig {
            hide_file_name: true,
            ..(TheLoggerConfig { hide_file_name: true, ..c })
        }) == (TheLoggerConfig { hide_file_name: true, ..c }),
        (TheLoggerConfig {
            hide_file_line: true,
            ..(TheLoggerConfig { hide_file_line: true, ..c })
        }) == (TheLoggerConfig { hide_file_line: true, ..c }),
        (TheLoggerConfig {
            show_file_column: false,
            ..(TheLoggerConfig { show_file_column: false, ..c })
        }) == (TheLoggerConfig { show_file_column: false, ..c }),
        (TheLoggerConfig { hide_years: false, ..(TheLoggerConfig { hide_years: false, ..c }) })
            == (TheLoggerConfig { hide_years: false, ..c }),
        (TheLoggerConfig { hide_months: false, ..(TheLoggerConfig { hide_months: false, ..c }) })
            == (TheLoggerConfig { hide_months: false, ..c }),
        (TheLoggerConfig { hide_days: false, ..(TheLoggerConfig { hide_days: false, ..c }) })
            == (TheLoggerConfig { hide_days: false, ..c }),
        (TheLoggerConfig { hide_hours: false, ..(TheLoggerConfig { hide_hours: false, ..c }) })
            == (TheLoggerConfig { hide_hours: false, ..c }),
        (TheLoggerConfig { hide_minutes: false, ..(TheLoggerConfig { hide_minutes: false, ..c }) })
            == (TheLoggerConfig { hide_minutes: false, ..c }),
        (TheLoggerConfig { hide_seconds: false, ..(TheLoggerConfig { hide_seconds: false, ..c }) })
            == (TheLoggerConfig { hide_seconds: false, ..c }),
        (TheLoggerConfig {
            hide_millisecs: false,
            ..(TheLoggerConfig { hide_millisecs: false, ..c })
        }) == (TheLoggerConfig { hide_millisecs: false, ..c }),
        (TheLoggerConfig {
            hide_microsecs: false,
            ..(TheLoggerConfig { hide_microsecs: false, ..c })
        }) == (TheLoggerConfig { hide_microsecs: false, ..c }),
        (TheLoggerConfig { utc_time: false, ..(TheLoggerConfig { utc_time: false, ..c }) })
            == (TheLoggerConfig { utc_time: false, ..c }),
        (TheLoggerConfig { hide_level: false, ..(TheLoggerConfig { hide_level: false, ..c }) })
            == (TheLoggerConfig { hide_level: false, ..c }),
        (TheLoggerConfig {
            hide_file_name: false,
            ..(TheLoggerConfig { hide_file_name: false, ..c })
        }) == (TheLoggerConfig { hide_file_name: false, ..c }),
        (TheLoggerConfig {
            hide_file_line: false,
            ..(TheLoggerConfig { hide_file_line: false, ..c })
        }) == (TheLoggerConfig { hide_file_line: false, ..c }),
        (TheLoggerConfig {
            show_file_column: true,
            ..(TheLoggerConfig { show_file_column: true, ..c })
        }) == (TheLoggerConfig { show_file_column: true, ..c }),
{
}

/// A configuration assembled from given field values reads back exactly
/// those values: replacing the whole snapshot and then querying each
/// toggle returns what was supplied.
pub proof fn lemma_replace_round_trip(
    hide_years: bool,
    hide_months: bool,
    hide_days: bool,
    hide_hours: bool,
    hide_minutes: bool,
    hide_seconds: bool,
    hide_millisecs: bool,
    hide_microsecs: bool,
    utc_time: bool,
    hide_level: bool,
    hide_file_name: bool,
    hide_file_line: bool,
    show_file_column: bool,
    location_length: usize,
    log_content_length: usize,
    log_level: LogLevel,
)
    ensures
        ({
            let c = TheLoggerConfig {
                hide_years,
                hide_months,
                hide_days,
                hide_hours,
                hide_minutes,
                hide_seconds,
                hide_millisecs,
                hide_microsecs,
                utc_time,
                hide_level,
                hide_file_name,
                hide_file_line,
                show_file_column,
                location_length,
                log_content_length,
                log_level,
            };
            &&& c.hide_years == hide_years
            &&& c.hide_months == hide_months
            &&& c.hide_days == hide_days
            &&& c.hide_hours == hide_hours
            &&& c.hide_minutes == hide_minutes
            &&& c.hide_seconds == hide_seconds
            &&& c.hide_millisecs == hide_millisecs
            &&& c.hide_microsecs == hide_microsecs
            &&& c.utc_time == utc_time
            &&& c.hide_level == hide_level
            &&& c.hide_file_name == hide_file_name
            &&& c.hide_file_line == hide_file_line
            &&& c.show_file_column == show_file_column
            &&& c.location_length == location_length
            &&& c.log_content_length == log_content_length
            &&& c.log_level == log_level
        }),
{
}

} // verus!
