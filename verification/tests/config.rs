use fusabi_stdlib_ext::config::{ModuleConfig, StdlibConfig};
use fusabi_stdlib_ext::registry::{HostFunction, Module, StdlibRegistry};
use fusabi_stdlib_ext::time::duration::Duration;

#[test]
fn test_module_config() {
    let config = ModuleConfig::new()
        .with_timeout(Duration::from_secs(10))
        .with_option("key", "value");

    assert!(config.enabled);
    assert_eq!(config.timeout, Some(Duration::from_secs(10)));
    assert_eq!(config.options.get("key"), Some(&"value".to_string()));
}

#[test]
fn test_stdlib_config_defaults() {
    let config = StdlibConfig::default();

    // Process and net disabled by default
    assert!(!config.process.enabled);
    assert!(!config.net.enabled);

    // Others enabled by default
    assert!(config.fs.enabled);
    assert!(config.time.enabled);
}

#[test]
fn test_stdlib_config_permissive() {
    let config = StdlibConfig::permissive();

    assert!(config.process.enabled);
    assert!(config.net.enabled);
    assert!(config.fs.enabled);
}

#[test]
fn test_stdlib_config_strict() {
    let config = StdlibConfig::strict();

    assert!(!config.process.enabled);
    assert!(!config.net.enabled);
    assert!(!config.fs.enabled);
    assert!(!config.env.enabled);
}

#[test]
fn test_registry_creation() {
    let registry = StdlibRegistry::default_config().unwrap();
    assert!(registry.config().fs.enabled);
}

#[test]
fn test_registry_permissive() {
    let config = StdlibConfig::permissive();
    let registry = StdlibRegistry::new(config).unwrap();

    assert!(registry.config().process.enabled);
    assert!(registry.config().net.enabled);
}

#[test]
fn test_registry_strict() {
    let config = StdlibConfig::strict();
    let registry = StdlibRegistry::new(config).unwrap();

    assert!(!registry.config().process.enabled);
    assert!(!registry.config().fs.enabled);
}

#[test]
fn module_config_builders() {
    let config = ModuleConfig::disabled();
    assert!(!config.enabled);
    assert_eq!(config.timeout, Some(Duration::from_secs(30)));
    assert_eq!(config.options.len(), 0);

    let config = config.with_enabled(true).no_timeout();
    assert!(config.enabled);
    assert_eq!(config.timeout, None);

    let config = config.with_option("a", "1").with_option("a", "2").with_option("b", "3");
    assert_eq!(config.options.len(), 2);
    assert_eq!(config.options.get("a"), Some(&"2".to_string()));
    assert_eq!(config.options.get("b"), Some(&"3".to_string()));
    assert_eq!(config.options.get("c"), None);
}

#[test]
fn enable_all_and_disable_all_touch_only_the_switches() {
    let config = StdlibConfig::new()
        .with_net(ModuleConfig::disabled().with_timeout(Duration::from_secs(5)))
        .enable_all();
    assert!(config.process.enabled);
    assert!(config.fs.enabled);
    assert!(config.path.enabled);
    assert!(config.env.enabled);
    assert!(config.format.enabled);
    assert!(config.net.enabled);
    assert!(config.time.enabled);
    assert!(config.metrics.enabled);
    assert_eq!(config.net.timeout, Some(Duration::from_secs(5)));

    let config = config.disable_all();
    assert!(!config.process.enabled);
    assert!(!config.fs.enabled);
    assert!(!config.path.enabled);
    assert!(!config.env.enabled);
    assert!(!config.format.enabled);
    assert!(!config.net.enabled);
    assert!(!config.time.enabled);
    assert!(!config.metrics.enabled);
    assert_eq!(config.net.timeout, Some(Duration::from_secs(5)));
}

#[test]
fn with_builders_replace_one_module_each() {
    let off = ModuleConfig::disabled();
    let config = StdlibConfig::permissive()
        .with_process(off.clone())
        .with_fs(off.clone())
        .with_path(off.clone())
        .with_env(off.clone())
        .with_format(off.clone())
        .with_time(off.clone())
        .with_metrics(off.clone());
    assert!(!config.process.enabled);
    assert!(!config.fs.enabled);
    assert!(!config.path.enabled);
    assert!(!config.env.enabled);
    assert!(!config.format.enabled);
    assert!(config.net.enabled);
    assert!(!config.time.enabled);
    assert!(!config.metrics.enabled);
}

#[test]
fn default_configuration_has_two_layers_of_denial() {
    let config = StdlibConfig::default();
    // the filesystem module is registered, and still nothing may be read
    assert!(config.fs.enabled);
    assert!(config.safety.check_read("/etc/passwd").is_err());
    assert!(config.safety.check_write("/tmp/x").is_err());
    assert!(config.safety.check_host("example.com").is_err());
    assert!(config.safety.check_env("PATH").is_err());
    assert!(config.safety.check_execute("ls").is_err());
}

#[test]
fn registry_plans_the_functions_of_enabled_modules() {
    let registry = StdlibRegistry::default_config().unwrap();
    let plan = registry.register_all();
    // process (2) and net (2) are disabled by default
    assert_eq!(plan.len(), 31 - 4);
    assert!(!plan.contains(&HostFunction::ProcessExec));
    assert!(!plan.contains(&HostFunction::NetGet));
    assert_eq!(plan[0], HostFunction::FsRead);
    assert!(plan.iter().all(|f| registry.module_config(f.module()).enabled));

    let registry = StdlibRegistry::new(StdlibConfig::permissive()).unwrap();
    let plan = registry.register_all();
    assert_eq!(plan.len(), 31);
    assert_eq!(plan[0], HostFunction::ProcessExec);
    assert_eq!(plan[30], HostFunction::MetricsHistogramObserve);

    let registry = StdlibRegistry::new(StdlibConfig::new().disable_all()).unwrap();
    assert!(registry.register_all().is_empty());
}

#[test]
fn registry_names_modules_and_functions() {
    let registry = StdlibRegistry::default_config().unwrap();
    assert_eq!(Module::Fs.name(), "fs");
    assert_eq!(HostFunction::FsMkdir.name(), "mkdir");
    assert_eq!(HostFunction::FsMkdir.module(), Module::Fs);
    assert_eq!(HostFunction::TimeFormat.name(), "format");
    assert_eq!(
        registry.register_process(),
        vec![HostFunction::ProcessExec, HostFunction::ProcessSpawn]
    );
    assert_eq!(registry.register_fs().len(), 6);
    assert_eq!(registry.register_path().len(), 6);
    assert_eq!(registry.register_env().len(), 3);
    assert_eq!(registry.register_format().len(), 4);
    assert_eq!(registry.register_net(), vec![HostFunction::NetGet, HostFunction::NetPost]);
    assert_eq!(registry.register_time().len(), 5);
    assert_eq!(registry.register_metrics().len(), 3);
    assert_eq!(registry.module_timeout(Module::Net), Some(Duration::from_secs(30)));
    assert!(registry.safety().check_read("/etc/passwd").is_err());
}
