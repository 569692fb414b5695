use collectd_plugin::capabilities::PluginCapabilities;
use collectd_plugin::level::LogLevel;
use collectd_plugin::lifecycle::InitAction;
use collectd_plugin::lifecycle::LifecycleStage;
use collectd_plugin::lifecycle::ModuleLifecycle;
use collectd_plugin::plugins::status_code;
use collectd_plugin::plugins::ConfigItem;
use collectd_plugin::plugins::DataValue;
use collectd_plugin::plugins::Plugin;
use collectd_plugin::plugins::PluginError;
use collectd_plugin::plugins::PluginManager;
use collectd_plugin::plugins::PluginRegistration;
use collectd_plugin::plugins::RegistrationError;
use collectd_plugin::plugins::ValueList;

struct NoopPlugin;

impl Plugin for NoopPlugin {}

struct FailingReader;

impl Plugin for FailingReader {
    fn capabilities(&self) -> PluginCapabilities {
        PluginCapabilities::read()
    }

    fn read_values(&self) -> Result<(), PluginError> {
        Err(PluginError::Failure("always failing".to_string()))
    }
}

struct CountingManager;

impl PluginManager for CountingManager {
    type Instance = NoopPlugin;

    fn name() -> &'static str {
        "counting"
    }

    fn plugins(
        _config: Option<&[ConfigItem]>,
    ) -> Result<PluginRegistration<NoopPlugin>, PluginError> {
        Ok(PluginRegistration::Single(NoopPlugin))
    }

    fn initialize() -> Result<(), PluginError> {
        Ok(())
    }

    fn shutdown() -> Result<(), PluginError> {
        Ok(())
    }
}

#[test]
fn optional_methods_default_to_not_implemented() {
    let p = NoopPlugin;
    assert!(!p.capabilities().has_read());
    assert!(!p.capabilities().has_log());
    assert!(!p.capabilities().has_write());
    assert!(!p.capabilities().has_flush());
    assert_eq!(p.log(LogLevel::Info, "message"), Err(PluginError::NotImplemented));
    assert_eq!(p.read_values(), Err(PluginError::NotImplemented));
    let list = ValueList {
        plugin: "source".to_string(),
        dataset: "gauge".to_string(),
        values: vec![DataValue::Counter(7), DataValue::Derive(-2), DataValue::Absolute(1)],
    };
    assert_eq!(p.write_values(list), Err(PluginError::NotImplemented));
    assert_eq!(p.flush(None, None), Err(PluginError::NotImplemented));
    assert_eq!(
        p.flush(Some(chrono::Duration::seconds(10)), Some("id")),
        Err(PluginError::NotImplemented)
    );
}

#[test]
fn not_implemented_is_distinguishable_from_failure() {
    assert!(PluginError::NotImplemented.is_not_implemented());
    assert!(!PluginError::Failure("broken".to_string()).is_not_implemented());
}

#[test]
fn duplicate_names_in_multiple_registration_are_detected() {
    let reg = PluginRegistration::Multiple(vec![
        ("a".to_string(), NoopPlugin),
        ("a".to_string(), NoopPlugin),
    ]);
    assert_eq!(reg.validate(), Err(RegistrationError::DuplicateName));
}

#[test]
fn unique_names_validate() {
    let reg = PluginRegistration::Multiple(vec![
        ("a".to_string(), NoopPlugin),
        ("b".to_string(), NoopPlugin),
    ]);
    assert_eq!(reg.validate(), Ok(()));
    let single = PluginRegistration::Single(NoopPlugin);
    assert_eq!(single.validate(), Ok(()));
    let empty: PluginRegistration<NoopPlugin> = PluginRegistration::Multiple(Vec::new());
    assert_eq!(empty.validate(), Ok(()));
}

#[test]
fn null_byte_in_name_is_a_contract_violation() {
    let reg = PluginRegistration::Multiple(vec![("bad\0name".to_string(), NoopPlugin)]);
    assert_eq!(reg.validate(), Err(RegistrationError::InvalidName));
}

#[test]
fn init_after_config_does_not_reconstruct() {
    let mut lc = ModuleLifecycle::register();
    let mut constructions = 0;

    // One config callback fires: it constructs from the given items.
    lc.on_config();
    let reg = CountingManager::plugins(Some(&[])).unwrap();
    assert!(reg.validate().is_ok());
    constructions += 1;

    // The later init callback must not construct a second time.
    let action = lc.on_init();
    assert_eq!(action, InitAction::InitializeOnly);
    if action == InitAction::ConstructDefault {
        CountingManager::plugins(None).unwrap();
        constructions += 1;
    } else {
        CountingManager::initialize().unwrap();
    }
    assert_eq!(constructions, 1);

    lc.on_shutdown();
    assert_eq!(CountingManager::shutdown(), Ok(()));
}

#[test]
fn init_without_config_constructs_default_exactly_once() {
    let mut lc = ModuleLifecycle::register();
    let mut default_constructions = 0;

    let action = lc.on_init();
    assert_eq!(action, InitAction::ConstructDefault);
    if action == InitAction::ConstructDefault {
        CountingManager::plugins(None).unwrap();
        default_constructions += 1;
    }
    assert_eq!(default_constructions, 1);
}

#[test]
fn lifecycle_stages_progress() {
    let mut lc = ModuleLifecycle::register();
    assert_eq!(lc.stage, LifecycleStage::Registered);
    assert!(!lc.config_seen);
    lc.on_config();
    assert!(lc.config_seen);
    assert_eq!(lc.stage, LifecycleStage::Registered);
    lc.on_init();
    assert_eq!(lc.stage, LifecycleStage::Initialized);
    lc.on_shutdown();
    assert_eq!(lc.stage, LifecycleStage::ShutDown);
}

#[test]
fn host_owns_backoff_for_failing_reader() {
    // The exponential backoff on failing reads belongs to the host, not to
    // this layer: this simulated host doubles its delay after every failed
    // read, caps it at a day, and keeps invoking the plugin.
    let plugin = FailingReader;
    assert!(plugin.capabilities().has_read());
    let cap_seconds: u64 = 86_400;
    let mut delay: u64 = 1;
    let mut invocations = 0;
    let mut delays = Vec::new();
    for _ in 0..20 {
        let result = plugin.read_values();
        assert!(result.is_err());
        assert!(!result.unwrap_err().is_not_implemented());
        invocations += 1;
        delays.push(delay);
        delay = (delay * 2).min(cap_seconds);
    }
    assert_eq!(invocations, 20);
    assert_eq!(delays[0], 1);
    assert_eq!(delays[1], 2);
    assert_eq!(*delays.last().unwrap(), cap_seconds);
    assert!(delays.iter().all(|d| *d <= cap_seconds));
}

#[test]
fn status_codes_for_host_callbacks() {
    assert_eq!(status_code(&Ok(())), 0);
    assert_ne!(status_code(&Err(PluginError::NotImplemented)), 0);
    assert_ne!(status_code(&Err(PluginError::Failure("x".to_string()))), 0);
}

#[test]
fn manager_default_capabilities_want_init() {
    assert!(CountingManager::capabilities().has_init());
}
