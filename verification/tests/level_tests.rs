use collectd_plugin::level::Level;
use collectd_plugin::level::LevelFilter;
use collectd_plugin::level::LogLevel;

#[test]
fn host_codes_round_trip_through_levels() {
    let levels = [
        LogLevel::Error,
        LogLevel::Warning,
        LogLevel::Notice,
        LogLevel::Info,
        LogLevel::Debug,
    ];
    for l in levels {
        assert_eq!(LogLevel::try_from(l.code()), Some(l));
    }
}

#[test]
fn recognized_codes_round_trip_through_codes() {
    for code in 3u32..=7u32 {
        let level = LogLevel::try_from(code).expect("code in the recognized range");
        assert_eq!(level.code(), code);
    }
}

#[test]
fn exact_code_values() {
    assert_eq!(LogLevel::Error.code(), 3);
    assert_eq!(LogLevel::Warning.code(), 4);
    assert_eq!(LogLevel::Notice.code(), 5);
    assert_eq!(LogLevel::Info.code(), 6);
    assert_eq!(LogLevel::Debug.code(), 7);
}

#[test]
fn unrecognized_codes_have_no_match() {
    assert_eq!(LogLevel::try_from(0), None);
    assert_eq!(LogLevel::try_from(1), None);
    assert_eq!(LogLevel::try_from(2), None);
    assert_eq!(LogLevel::try_from(8), None);
    assert_eq!(LogLevel::try_from(u32::MAX), None);
}

#[test]
fn general_scale_collapses_most_verbose_levels() {
    assert_eq!(LogLevel::from(Level::Error), LogLevel::Error);
    assert_eq!(LogLevel::from(Level::Warn), LogLevel::Warning);
    assert_eq!(LogLevel::from(Level::Info), LogLevel::Info);
    assert_eq!(LogLevel::from(Level::Debug), LogLevel::Debug);
    assert_eq!(LogLevel::from(Level::Trace), LogLevel::Debug);
}

#[test]
fn level_passes_ceilings() {
    assert!(Level::Error.passes(LevelFilter::Error));
    assert!(!Level::Warn.passes(LevelFilter::Error));
    assert!(Level::Trace.passes(LevelFilter::Trace));
    assert!(!Level::Error.passes(LevelFilter::Off));
}

#[test]
fn level_filter_max_picks_more_verbose() {
    assert_eq!(LevelFilter::Info.max(LevelFilter::Error), LevelFilter::Info);
    assert_eq!(LevelFilter::Off.max(LevelFilter::Trace), LevelFilter::Trace);
    assert_eq!(LevelFilter::Warn.max(LevelFilter::Warn), LevelFilter::Warn);
}
