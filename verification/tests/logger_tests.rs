use collectd_plugin::filter::FilterBuilder;
use collectd_plugin::level::Level;
use collectd_plugin::level::LevelFilter;
use collectd_plugin::level::LogLevel;
use collectd_plugin::logger::collectd_log;
use collectd_plugin::logger::is_null_free;
use collectd_plugin::logger::CollectdLogger;
use collectd_plugin::logger::CollectdLoggerBuilder;
use collectd_plugin::logger::DefaultFormat;
use collectd_plugin::logger::LoggerSlot;
use collectd_plugin::logger::LogRecord;
use collectd_plugin::plugins::ConfigItem;
use collectd_plugin::plugins::Plugin;
use collectd_plugin::plugins::PluginError;
use collectd_plugin::plugins::PluginManager;
use collectd_plugin::plugins::PluginRegistration;

struct NoopPlugin;

impl Plugin for NoopPlugin {}

struct MyPlugin;

impl PluginManager for MyPlugin {
    type Instance = NoopPlugin;

    fn name() -> &'static str {
        "myplugin"
    }

    fn plugins(
        _config: Option<&[ConfigItem]>,
    ) -> Result<PluginRegistration<NoopPlugin>, PluginError> {
        Ok(PluginRegistration::Single(NoopPlugin))
    }

    fn initialize() -> Result<(), PluginError> {
        Ok(())
    }

    fn shutdown() -> Result<(), PluginError> {
        Ok(())
    }
}

struct OtherPlugin;

impl PluginManager for OtherPlugin {
    type Instance = NoopPlugin;

    fn name() -> &'static str {
        "otherplugin"
    }

    fn plugins(
        _config: Option<&[ConfigItem]>,
    ) -> Result<PluginRegistration<NoopPlugin>, PluginError> {
        Ok(PluginRegistration::Single(NoopPlugin))
    }

    fn initialize() -> Result<(), PluginError> {
        Ok(())
    }

    fn shutdown() -> Result<(), PluginError> {
        Ok(())
    }
}

fn trace_all_logger() -> CollectdLogger<DefaultFormat> {
    CollectdLogger {
        filter: FilterBuilder::new().filter_level(LevelFilter::Trace).build(),
        plugin: None,
        format: DefaultFormat,
    }
}

#[test]
fn scratch_buffer_returns_to_zero_over_many_calls() {
    let logger = trace_all_logger();
    let mut buf = String::new();
    for _ in 0..50 {
        let rec = LogRecord {
            level: Level::Info,
            module: Some("m".to_string()),
            message: "hello".to_string(),
        };
        let out = logger.log(&mut buf, &rec);
        assert!(out.is_some());
        assert_eq!(buf.len(), 0);
    }
}

#[test]
fn scratch_buffer_returns_to_zero_when_record_is_filtered() {
    let logger = CollectdLogger {
        filter: FilterBuilder::new().filter_level(LevelFilter::Error).build(),
        plugin: None,
        format: DefaultFormat,
    };
    let mut buf = String::new();
    for _ in 0..10 {
        let rec = LogRecord { level: Level::Debug, module: None, message: "quiet".to_string() };
        assert!(logger.log(&mut buf, &rec).is_none());
        assert_eq!(buf.len(), 0);
    }
}

#[test]
fn stale_bytes_are_cleared_even_when_record_is_filtered() {
    let logger = CollectdLogger {
        filter: FilterBuilder::new().filter_level(LevelFilter::Error).build(),
        plugin: None,
        format: DefaultFormat,
    };
    let mut buf = String::from("stale bytes from an earlier failure");
    let rec = LogRecord { level: Level::Debug, module: None, message: "dropped".to_string() };
    assert!(logger.log(&mut buf, &rec).is_none());
    assert_eq!(buf.len(), 0);
}

#[test]
fn payload_is_prefix_module_message_and_null() {
    let logger = CollectdLogger {
        filter: FilterBuilder::new().filter_level(LevelFilter::Trace).build(),
        plugin: Some("myplugin".to_string()),
        format: DefaultFormat,
    };
    let mut buf = String::new();
    let rec = LogRecord {
        level: Level::Warn,
        module: Some("a::b".to_string()),
        message: "watch out".to_string(),
    };
    let out = logger.log(&mut buf, &rec).expect("record is enabled");
    assert_eq!(out.text.as_str(), "myplugin: a::b: watch out\0");
    assert_eq!(out.level, LogLevel::Warning);
    assert_eq!(buf.len(), 0);
}

#[test]
fn payload_without_module_omits_module_part() {
    let logger = trace_all_logger();
    let mut buf = String::new();
    let rec = LogRecord { level: Level::Trace, module: None, message: "bare".to_string() };
    let out = logger.log(&mut buf, &rec).expect("record is enabled");
    assert_eq!(out.text.as_str(), "bare\0");
    assert_eq!(out.level, LogLevel::Debug);
}

#[test]
fn matches_follows_filter() {
    let logger = CollectdLogger {
        filter: FilterBuilder::new()
            .filter_module("myplugin", LevelFilter::Info)
            .filter_level(LevelFilter::Warn)
            .build(),
        plugin: None,
        format: DefaultFormat,
    };
    let enabled = LogRecord {
        level: Level::Info,
        module: Some("myplugin".to_string()),
        message: String::new(),
    };
    let disabled = LogRecord {
        level: Level::Debug,
        module: Some("myplugin".to_string()),
        message: String::new(),
    };
    assert!(logger.matches(&enabled));
    assert!(!logger.matches(&disabled));
    assert_eq!(logger.filter(), LevelFilter::Info);
    logger.flush();
}

#[test]
fn second_install_fails_and_first_logger_remains() {
    let mut slot: LoggerSlot<DefaultFormat> = LoggerSlot::empty();
    let first = CollectdLoggerBuilder::new()
        .prefix_plugin::<MyPlugin>()
        .filter_level(LevelFilter::Info)
        .try_init(&mut slot);
    assert_eq!(first, Ok(LevelFilter::Info));

    let second = CollectdLoggerBuilder::new()
        .prefix_plugin::<OtherPlugin>()
        .filter_level(LevelFilter::Trace)
        .try_init(&mut slot);
    assert!(second.is_err());

    let logger = slot.installed().as_ref().expect("first install succeeded");
    let mut buf = String::new();
    let rec = LogRecord { level: Level::Info, module: None, message: "x".to_string() };
    let out = logger.log(&mut buf, &rec).expect("info is enabled by the first filter");
    assert_eq!(out.text.as_str(), "myplugin: x\0");

    let verbose = LogRecord { level: Level::Trace, module: None, message: "x".to_string() };
    assert!(logger.log(&mut buf, &verbose).is_none());
}

#[test]
fn builder_parse_feeds_filter() {
    let mut slot: LoggerSlot<DefaultFormat> = LoggerSlot::empty();
    let r = CollectdLoggerBuilder::new().parse("myplugin=info,warn").try_init(&mut slot);
    assert_eq!(r, Ok(LevelFilter::Info));
    let logger = slot.installed().as_ref().unwrap();
    let rec = LogRecord {
        level: Level::Info,
        module: Some("myplugin".to_string()),
        message: String::new(),
    };
    assert!(logger.matches(&rec));
}

#[test]
fn direct_path_payload_is_message_and_null() {
    let msg = collectd_log(LogLevel::Warning, "danger");
    assert_eq!(msg.level, LogLevel::Warning);
    assert_eq!(msg.level.code(), 4);
    assert_eq!(msg.text.as_str(), "danger\0");
}

#[test]
fn null_free_check() {
    assert!(is_null_free("plain text"));
    assert!(is_null_free(""));
    assert!(!is_null_free("bad\0text"));
}
