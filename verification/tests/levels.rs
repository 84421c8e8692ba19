use doodle::cmdline::{LogFilter, LogLevel};

#[test]
fn parse_all_level_names() {
    assert_eq!(LogLevel::from_str("debug"), Ok(LogLevel::Debug));
    assert_eq!(LogLevel::from_str("info"), Ok(LogLevel::Info));
    assert_eq!(LogLevel::from_str("warning"), Ok(LogLevel::Warning));
    assert_eq!(LogLevel::from_str("error"), Ok(LogLevel::Error));
    assert_eq!(LogLevel::from_str("critical"), Ok(LogLevel::Critical));
}

#[test]
fn parse_rejects_unknown_name() {
    let r = LogLevel::from_str("verbose");
    assert_eq!(
        r,
        Err("valid values: debug, info, warning, error, critical")
    );
}

#[test]
fn parse_is_case_sensitive() {
    assert!(LogLevel::from_str("Debug").is_err());
}

#[test]
fn level_names_round_trip() {
    for level in [
        LogLevel::Debug,
        LogLevel::Info,
        LogLevel::Warning,
        LogLevel::Error,
        LogLevel::Critical,
    ] {
        assert_eq!(LogLevel::from_str(level.as_str()), Ok(level));
    }
}

#[test]
fn filter_mapping() {
    assert_eq!(LogLevel::Debug.to_filter(), LogFilter::Debug);
    assert_eq!(LogLevel::Info.to_filter(), LogFilter::Info);
    assert_eq!(LogLevel::Warning.to_filter(), LogFilter::Warn);
    assert_eq!(LogLevel::Error.to_filter(), LogFilter::Error);
    assert_eq!(LogLevel::Critical.to_filter(), LogFilter::Error);
}
