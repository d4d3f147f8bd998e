use the_logger::LogLevel;
use the_logger::TheLoggerConfig;
use the_logger::Timestamp;
use the_logger::compose_line;

fn sample_ts() -> Timestamp {
    Timestamp { year: 2023, month: 12, day: 16, hour: 17, minute: 8, second: 7, micro: 451851 }
}

#[test]
fn default_warning_line() {
    let cfg = TheLoggerConfig::default().warning();
    let ts = sample_ts();
    let line = compose_line(&cfg, &ts, "main.rs", 42, 7, "disk full");
    // column display is off by default, so no `|7`
    let body = format!(
        "{}\t{}{}{}",
        "2023-12-16 17:08:07.451851",
        "[WARNING]\t",
        format!("{:<80}", "@main.rs: 42"),
        "disk full"
    );
    let expected = format!("{:<300}\n", body);
    assert_eq!(line, expected);
    assert!(!line.contains("|7"));
}

#[test]
fn location_truncated_to_width() {
    let cfg = TheLoggerConfig::default().location_content_length(5);
    let ts = sample_ts();
    let line = compose_line(&cfg, &ts, "main.rs", 42, 7, "msg");
    // the first 5 characters of `@main.rs: 42`, closed by two tabs
    let body = format!(
        "{}\t{}{}{}",
        "2023-12-16 17:08:07.451851",
        "[VERBOSE]\t",
        "@main\t\t",
        "msg"
    );
    let expected = format!("{:<300}\n", body);
    assert_eq!(line, expected);
}

#[test]
fn location_exactly_at_width_is_not_truncated() {
    let cfg = TheLoggerConfig::default().location_content_length(12);
    let ts = sample_ts();
    let line = compose_line(&cfg, &ts, "main.rs", 42, 7, "msg");
    // `@main.rs: 42` is exactly 12 characters: padded, not cut, no tabs
    assert!(line.contains("@main.rs: 42msg"));
    assert!(!line.contains("\t\t"));
}

#[test]
fn long_message_truncated() {
    let cfg = TheLoggerConfig::default().log_content_length(4);
    let ts = sample_ts();
    let line = compose_line(&cfg, &ts, "main.rs", 42, 7, "hello world");
    let body = format!(
        "{}\t{}{}{}",
        "2023-12-16 17:08:07.451851",
        "[VERBOSE]\t",
        format!("{:<80}", "@main.rs: 42"),
        "hell"
    );
    // the body is already wider than 4, so the final padding adds nothing
    let expected = format!("{}\n", body);
    assert_eq!(line, expected);
}

#[test]
fn truncation_counts_characters_not_bytes() {
    let cfg = TheLoggerConfig::default().log_content_length(2);
    let ts = sample_ts();
    let line = compose_line(&cfg, &ts, "main.rs", 1, 1, "h\u{e9}llo");
    // two characters survive, the second being the two-byte one
    assert!(line.contains("h\u{e9}\n"));
    assert!(!line.contains("h\u{e9}l"));
}

#[test]
fn all_dates_hidden_no_separating_space() {
    let cfg = TheLoggerConfig::default().hide_years().hide_months().hide_days();
    let ts = sample_ts();
    let line = compose_line(&cfg, &ts, "main.rs", 42, 7, "msg");
    assert!(line.starts_with("17:08:07.451851\t"));
}

#[test]
fn one_date_field_keeps_separating_space() {
    let cfg = TheLoggerConfig::default().hide_years().hide_months();
    let ts = sample_ts();
    let line = compose_line(&cfg, &ts, "main.rs", 42, 7, "msg");
    // only the day is shown; the pattern concatenation leaves its dash
    assert!(line.starts_with("-16 17:08:07.451851\t"));
}

#[test]
fn hide_millis_suppresses_fraction_even_with_micros_shown() {
    let cfg = TheLoggerConfig::default().hide_millisecs().show_microsecs();
    let ts = sample_ts();
    let line = compose_line(&cfg, &ts, "main.rs", 42, 7, "msg");
    assert!(line.starts_with("2023-12-16 17:08:07\t"));
}

#[test]
fn hide_micros_leaves_milliseconds() {
    let cfg = TheLoggerConfig::default().hide_microsecs();
    let ts = sample_ts();
    let line = compose_line(&cfg, &ts, "main.rs", 42, 7, "msg");
    assert!(line.starts_with("2023-12-16 17:08:07.451\t"));
}

#[test]
fn hidden_level_leaves_tab_placeholder() {
    let cfg = TheLoggerConfig::default().hide_level();
    let ts = sample_ts();
    let line = compose_line(&cfg, &ts, "main.rs", 42, 7, "msg");
    assert!(line.starts_with("2023-12-16 17:08:07.451851\t\t@main.rs: 42"));
}

#[test]
fn each_severity_has_its_label() {
    let ts = sample_ts();
    let cases = vec![
        (LogLevel::Verbose, "[VERBOSE]\t@"),
        (LogLevel::Information, "[INFO]\t\t@"),
        (LogLevel::Error, "[ERROR]\t\t@"),
        (LogLevel::Warning, "[WARNING]\t@"),
        (LogLevel::Debug, "[DEBUG]\t\t@"),
        (LogLevel::Trace, "[TRACE]\t\t@"),
        (LogLevel::Critical, "[CRITICAL]\t@"),
    ];
    for (level, tag) in cases {
        let mut cfg = TheLoggerConfig::default();
        cfg.set_log_level(level);
        let line = compose_line(&cfg, &ts, "main.rs", 42, 7, "msg");
        assert!(line.contains(tag));
    }
}

#[test]
fn column_shown_when_enabled() {
    let cfg = TheLoggerConfig::default().show_file_column();
    let ts = sample_ts();
    let line = compose_line(&cfg, &ts, "main.rs", 42, 7, "msg");
    assert!(line.contains("@main.rs: 42|7"));
}

#[test]
fn hidden_line_hides_column_too() {
    let cfg = TheLoggerConfig::default().show_file_column().hide_file_line();
    let ts = sample_ts();
    let line = compose_line(&cfg, &ts, "main.rs", 42, 7, "msg");
    assert!(line.contains("@main.rs "));
    assert!(!line.contains(": 42"));
    assert!(!line.contains("|7"));
}

#[test]
fn hidden_file_name_hides_whole_location() {
    let cfg = TheLoggerConfig::default().hide_file_name();
    let ts = sample_ts();
    let line = compose_line(&cfg, &ts, "main.rs", 42, 7, "msg");
    assert!(!line.contains("@"));
    assert!(!line.contains("42"));
    assert!(line.starts_with("2023-12-16 17:08:07.451851\t[VERBOSE]\tmsg"));
}

#[test]
fn empty_timestamp_still_emits_bare_tab() {
    let cfg = TheLoggerConfig::default()
        .hide_years()
        .hide_months()
        .hide_days()
        .hide_hours()
        .hide_minutes()
        .hide_seconds()
        .hide_millisecs();
    let ts = sample_ts();
    let line = compose_line(&cfg, &ts, "main.rs", 42, 7, "msg");
    assert!(line.starts_with("\t[VERBOSE]\t"));
}

#[test]
fn years_pad_to_four_digits_and_sign() {
    let mut ts = sample_ts();
    ts.year = 0;
    let cfg = TheLoggerConfig::default();
    let line = compose_line(&cfg, &ts, "main.rs", 1, 1, "m");
    assert!(line.starts_with("0000-12-16"));
    ts.year = -5;
    let line = compose_line(&cfg, &ts, "main.rs", 1, 1, "m");
    assert!(line.starts_with("-0005-12-16"));
    ts.year = 33;
    let line = compose_line(&cfg, &ts, "main.rs", 1, 1, "m");
    assert!(line.starts_with("0033-12-16"));
}

#[test]
fn small_fields_are_zero_padded() {
    let ts = Timestamp { year: 2024, month: 1, day: 2, hour: 3, minute: 4, second: 5, micro: 6 };
    let cfg = TheLoggerConfig::default();
    let line = compose_line(&cfg, &ts, "main.rs", 0, 0, "m");
    assert!(line.starts_with("2024-01-02 03:04:05.000006\t"));
    assert!(line.contains("@main.rs: 0"));
}

#[test]
fn zero_location_width_cuts_to_tabs_only() {
    let cfg = TheLoggerConfig::default().location_content_length(0);
    let ts = sample_ts();
    let line = compose_line(&cfg, &ts, "main.rs", 42, 7, "msg");
    assert!(line.contains("[VERBOSE]\t\t\tmsg"));
    assert!(!line.contains("@"));
}

#[test]
fn whole_line_padded_to_content_width() {
    let cfg = TheLoggerConfig::default().log_content_length(300);
    let ts = sample_ts();
    let line = compose_line(&cfg, &ts, "main.rs", 42, 7, "short");
    // body is shorter than 300, so the line is exactly 300 characters plus
    // the newline
    assert_eq!(line.chars().count(), 301);
    assert!(line.ends_with(" \n"));
}
