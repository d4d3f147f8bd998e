use the_logger::LogLevel;
use the_logger::TheLogger;
use the_logger::TheLoggerConfig;

#[test]
fn bulk_replace_round_trip() {
    let logger = TheLogger::new();
    let preset = TheLoggerConfig::default()
        .hide_days()
        .hide_microsecs()
        .utc_time()
        .show_file_column()
        .location_content_length(33)
        .log_content_length(123)
        .error();
    logger.config(preset);
    let s = logger.snapshot();
    assert!(!s.get_years_config());
    assert!(!s.get_months_config());
    assert!(s.get_days_config());
    assert!(!s.get_hours_config());
    assert!(!s.get_minutes_config());
    assert!(!s.get_seconds_config());
    assert!(!s.get_millisecs_config());
    assert!(s.get_microsecs_config());
    assert!(s.get_utc_config());
    assert!(!s.get_level_config());
    assert!(!s.get_file_name_config());
    assert!(!s.get_file_line_config());
    assert!(s.get_file_column_config());
    assert_eq!(s.get_location_length(), 33);
    assert_eq!(s.get_log_content_length(), 123);
    assert_eq!(s.get_log_level(), LogLevel::Error);
    assert_eq!(s, preset);
}

#[test]
fn store_toggles_reach_snapshot() {
    let logger = TheLogger::new();
    logger.hide_years().hide_level().utc_time().location_content_length(9);
    let s = logger.snapshot();
    assert!(s.get_years_config());
    assert!(s.get_level_config());
    assert!(s.get_utc_config());
    assert_eq!(s.get_location_length(), 9);
    logger.show_years().show_level().local_time();
    let s = logger.snapshot();
    assert!(!s.get_years_config());
    assert!(!s.get_level_config());
    assert!(!s.get_utc_config());
}

#[test]
fn store_toggle_twice_equals_once() {
    let once = TheLogger::new();
    once.hide_months();
    let twice = TheLogger::new();
    twice.hide_months().hide_months();
    assert_eq!(once.snapshot(), twice.snapshot());
}

#[test]
fn store_severity_selection() {
    let logger = TheLogger::new();
    logger.warning();
    assert_eq!(logger.snapshot().get_log_level(), LogLevel::Warning);
    logger.verbose();
    assert_eq!(logger.snapshot().get_log_level(), LogLevel::Verbose);
    logger.info();
    assert_eq!(logger.snapshot().get_log_level(), LogLevel::Information);
    logger.error();
    assert_eq!(logger.snapshot().get_log_level(), LogLevel::Error);
    logger.debug();
    assert_eq!(logger.snapshot().get_log_level(), LogLevel::Debug);
    logger.trace();
    assert_eq!(logger.snapshot().get_log_level(), LogLevel::Trace);
    logger.critical();
    assert_eq!(logger.snapshot().get_log_level(), LogLevel::Critical);
}

#[test]
fn render_record_uses_current_configuration() {
    let logger = TheLogger::with_config(
        TheLoggerConfig::default()
            .hide_years()
            .hide_months()
            .hide_days()
            .hide_hours()
            .hide_minutes()
            .hide_seconds()
            .hide_millisecs()
            .warning(),
    );
    let line = logger.render_record("main.rs", 42, 7, "disk full");
    // with the whole timestamp hidden the line is deterministic
    let body = format!("\t{}{}{}", "[WARNING]\t", format!("{:<80}", "@main.rs: 42"), "disk full");
    let expected = format!("{:<300}\n", body);
    assert_eq!(line, expected);
}

#[test]
fn render_record_ends_with_newline_and_reflects_toggle() {
    let logger = TheLogger::new();
    logger.hide_level();
    let line = logger.render_record("a.rs", 1, 2, "x");
    assert!(line.ends_with("\n"));
    assert!(line.contains("@a.rs: 1"));
    assert!(!line.contains("[VERBOSE]"));
}

#[test]
fn log_content_length_through_store() {
    let logger = TheLogger::new();
    logger.log_content_length(4).hide_level();
    let line = logger.render_record("m.rs", 1, 1, "hello world");
    assert!(line.ends_with("hell\n"));
}
