use the_logger::LogLevel;
use the_logger::TheLoggerConfig;

#[test]
fn default_config_values() {
    let c = TheLoggerConfig::default();
    assert!(!c.get_years_config());
    assert!(!c.get_months_config());
    assert!(!c.get_days_config());
    assert!(!c.get_hours_config());
    assert!(!c.get_minutes_config());
    assert!(!c.get_seconds_config());
    assert!(!c.get_millisecs_config());
    assert!(!c.get_microsecs_config());
    assert!(!c.get_utc_config());
    assert!(!c.get_level_config());
    assert!(!c.get_file_name_config());
    assert!(!c.get_file_line_config());
    assert!(!c.get_file_column_config());
    assert_eq!(c.get_location_length(), 80);
    assert_eq!(c.get_log_content_length(), 300);
    assert_eq!(c.get_log_level(), LogLevel::Verbose);
}

#[test]
fn builder_chain_reads_back() {
    let c = TheLoggerConfig::default()
        .hide_years()
        .hide_microsecs()
        .utc_time()
        .show_file_column()
        .location_content_length(12)
        .log_content_length(99)
        .warning();
    assert!(c.get_years_config());
    assert!(c.get_microsecs_config());
    assert!(c.get_utc_config());
    assert!(c.get_file_column_config());
    assert_eq!(c.get_location_length(), 12);
    assert_eq!(c.get_log_content_length(), 99);
    assert_eq!(c.get_log_level(), LogLevel::Warning);
    // the untouched fields keep their defaults
    assert!(!c.get_months_config());
    assert!(!c.get_millisecs_config());
    assert!(!c.get_level_config());
    assert!(!c.get_file_name_config());
}

#[test]
fn toggle_twice_equals_once() {
    let once = TheLoggerConfig::default().hide_months();
    let twice = TheLoggerConfig::default().hide_months().hide_months();
    assert_eq!(once, twice);

    let once = TheLoggerConfig::default().hide_years().show_years();
    let twice = TheLoggerConfig::default().hide_years().show_years().show_years();
    assert_eq!(once, twice);

    let once = TheLoggerConfig::default().show_file_column();
    let twice = TheLoggerConfig::default().show_file_column().show_file_column();
    assert_eq!(once, twice);

    let once = TheLoggerConfig::default().utc_time();
    let twice = TheLoggerConfig::default().utc_time().utc_time();
    assert_eq!(once, twice);
}

#[test]
fn show_undoes_hide() {
    let c = TheLoggerConfig::default()
        .hide_years()
        .hide_hours()
        .hide_level()
        .hide_file_name()
        .show_years()
        .show_hours()
        .show_level()
        .show_file_name();
    assert_eq!(c, TheLoggerConfig::default());
}

#[test]
fn severity_builders_select_each_level() {
    let base = TheLoggerConfig::default();
    assert_eq!(base.verbose().get_log_level(), LogLevel::Verbose);
    assert_eq!(base.info().get_log_level(), LogLevel::Information);
    assert_eq!(base.error().get_log_level(), LogLevel::Error);
    assert_eq!(base.warning().get_log_level(), LogLevel::Warning);
    assert_eq!(base.debug().get_log_level(), LogLevel::Debug);
    assert_eq!(base.trace().get_log_level(), LogLevel::Trace);
    assert_eq!(base.critical().get_log_level(), LogLevel::Critical);
}

#[test]
fn setters_write_single_fields() {
    let mut c = TheLoggerConfig::default();
    c.set_years_config(true);
    c.set_months_config(true);
    c.set_days_config(true);
    c.set_hours_config(true);
    c.set_minutes_config(true);
    c.set_seconds_config(true);
    c.set_millisecs_config(true);
    c.set_microsecs_config(true);
    c.set_utc_config(true);
    c.set_level_config(true);
    c.set_log_level(LogLevel::Critical);
    c.set_location_length(7);
    c.set_log_content_length(8);
    assert!(c.get_years_config());
    assert!(c.get_months_config());
    assert!(c.get_days_config());
    assert!(c.get_hours_config());
    assert!(c.get_minutes_config());
    assert!(c.get_seconds_config());
    assert!(c.get_millisecs_config());
    assert!(c.get_microsecs_config());
    assert!(c.get_utc_config());
    assert!(c.get_level_config());
    assert_eq!(c.get_log_level(), LogLevel::Critical);
    assert_eq!(c.get_location_length(), 7);
    assert_eq!(c.get_log_content_length(), 8);
    // file-name, line and column flags were untouched
    assert!(!c.get_file_name_config());
    assert!(!c.get_file_line_config());
    assert!(!c.get_file_column_config());
}
