//! Configuration of the modules: which of them are registered at all, and
//! with which timeout. This is the coarse layer above the safety policy; an
//! effect takes place only where both layers let it pass.

use vstd::prelude::*;
use crate::collections::StringMap;
use crate::safety::SafetyConfig;
use crate::time::duration::Duration;

verus! {

/// Configuration of one module.
#[derive(Debug, Clone)]
pub struct ModuleConfig {
    /// Whether the module is registered.
    pub enabled: bool,
    /// The timeout of the module's operations, if it sets one.
    pub timeout: Option<Duration>,
    /// Further options of the module.
    pub options: StringMap,
}

impl ModuleConfig {
    /// A module as it is first configured: a timeout of thirty seconds and
    /// no options, neither as entries nor as a map.
    pub open spec fn is_initial(&self, enabled: bool) -> bool {
        &&& self.enabled == enabled
        &&& self.timeout == Some(Duration::from_secs_spec(30))
        &&& self.options.pairs() == Seq::<(Seq<char>, Seq<char>)>::empty()
        &&& self.options@ == Map::<Seq<char>, Seq<char>>::empty()
    }

    /// An enabled module with the initial timeout and no options.
    pub fn new() -> (r: Self)
        ensures
            r.is_initial(true),
    {
        ModuleConfig {
            enabled: true,
            timeout: Some(Duration::from_secs(30)),
            options: StringMap::new(),
        }
    }

    /// A disabled module with the initial timeout and no options.
    pub fn disabled() -> (r: Self)
        ensures
            r.is_initial(false),
    {
        ModuleConfig {
            enabled: false,
            timeout: Some(Duration::from_secs(30)),
            options: StringMap::new(),
        }
    }

    /// Enables or disables the module.
    pub fn with_enabled(self, enabled: bool) -> (r: Self)
        ensures
            r == (ModuleConfig { enabled, ..self }),
    {
        ModuleConfig { enabled, ..self }
    }

    /// Sets the timeout.
    pub fn with_timeout(self, timeout: Duration) -> (r: Self)
        ensures
            r == (ModuleConfig { timeout: Some(timeout), ..self }),
    {
        ModuleConfig { timeout: Some(timeout), ..self }
    }

    /// Removes the timeout.
    pub fn no_timeout(self) -> (r: Self)
        ensures
            r == (ModuleConfig { timeout: None, ..self }),
    {
        ModuleConfig { timeout: None, ..self }
    }

    /// Sets the option `key` to `value`.
    pub fn with_option(self, key: &str, value: &str) -> (r: Self)
        ensures
            r.enabled == self.enabled,
            r.timeout == self.timeout,
            r.options@ == self.options@.insert(key@, value@),
    {
        ModuleConfig {
            enabled: self.enabled,
            timeout: self.timeout,
            options: self.options.insert(key.to_owned(), value.to_owned()),
        }
    }
}

impl Default for ModuleConfig {
    fn default() -> (r: Self)
        ensures
            r.is_initial(true),
    {
        ModuleConfig::new()
    }
}

/// Configuration of the whole library: the safety policy and one
/// configuration for each module.
#[derive(Debug, Clone)]
pub struct StdlibConfig {
    /// Safety configuration.
    pub safety: SafetyConfig,
    /// Process module.
    pub process: ModuleConfig,
    /// Filesystem module.
    pub fs: ModuleConfig,
    /// Path module.
    pub path: ModuleConfig,
    /// Environment module.
    pub env: ModuleConfig,
    /// Format module.
    pub format: ModuleConfig,
    /// Network module.
    pub net: ModuleConfig,
    /// Time module.
    pub time: ModuleConfig,
    /// Metrics module.
    pub metrics: ModuleConfig,
}

impl StdlibConfig {
    /// The default: the default safety policy; the process and network
    /// modules are disabled, the others enabled.
    pub open spec fn is_default(&self) -> bool {
        &&& self.safety.is_default()
        &&& self.process.is_initial(false)
        &&& self.fs.is_initial(true)
        &&& self.path.is_initial(true)
        &&& self.env.is_initial(true)
        &&& self.format.is_initial(true)
        &&& self.net.is_initial(false)
        &&& self.time.is_initial(true)
        &&& self.metrics.is_initial(true)
    }

    /// The permissive configuration: the permissive safety policy and every
    /// module enabled.
    pub open spec fn is_permissive(&self) -> bool {
        &&& self.safety.is_permissive()
        &&& self.process.is_initial(true)
        &&& self.fs.is_initial(true)
        &&& self.path.is_initial(true)
        &&& self.env.is_initial(true)
        &&& self.format.is_initial(true)
        &&& self.net.is_initial(true)
        &&& self.time.is_initial(true)
        &&& self.metrics.is_initial(true)
    }

    /// The strict configuration: the strict safety policy; only the path,
    /// format and time modules are enabled.
    pub open spec fn is_strict(&self) -> bool {
        &&& self.safety.is_strict()
        &&& self.process.is_initial(false)
        &&& self.fs.is_initial(false)
        &&& self.path.is_initial(true)
        &&& self.env.is_initial(false)
        &&& self.format.is_initial(true)
        &&& self.net.is_initial(false)
        &&& self.time.is_initial(true)
        &&& self.metrics.is_initial(false)
    }

    /// The configuration with every module's `enabled` set to `enabled` and
    /// nothing else changed.
    pub open spec fn with_all(self, enabled: bool) -> StdlibConfig {
        StdlibConfig {
            safety: self.safety,
            process: ModuleConfig { enabled, ..self.process },
            fs: ModuleConfig { enabled, ..self.fs },
            path: ModuleConfig { enabled, ..self.path },
            env: ModuleConfig { enabled, ..self.env },
            format: ModuleConfig { enabled, ..self.format },
            net: ModuleConfig { enabled, ..self.net },
            time: ModuleConfig { enabled, ..self.time },
            metrics: ModuleConfig { enabled, ..self.metrics },
        }
    }

    /// The default configuration.
    pub fn new() -> (r: Self)
        ensures
            r.is_default(),
    {
        StdlibConfig {
            safety: SafetyConfig::new(),
            process: ModuleConfig::disabled(),
            fs: ModuleConfig::new(),
            path: ModuleConfig::new(),
            env: ModuleConfig::new(),
            format: ModuleConfig::new(),
            net: ModuleConfig::disabled(),
            time: ModuleConfig::new(),
            metrics: ModuleConfig::new(),
        }
    }

    /// The permissive configuration, for trusted code only.
    pub fn permissive() -> (r: Self)
        ensures
            r.is_permissive(),
    {
        StdlibConfig {
            safety: SafetyConfig::permissive(),
            process: ModuleConfig::new(),
            fs: ModuleConfig::new(),
            path: ModuleConfig::new(),
            env: ModuleConfig::new(),
            format: ModuleConfig::new(),
            net: ModuleConfig::new(),
            time: ModuleConfig::new(),
            metrics: ModuleConfig::new(),
        }
    }

    /// The strict configuration, with the fewest permissions.
    pub fn strict() -> (r: Self)
        ensures
            r.is_strict(),
    {
        StdlibConfig {
            safety: SafetyConfig::strict(),
            process: ModuleConfig::disabled(),
            fs: ModuleConfig::disabled(),
            path: ModuleConfig::new(),
            env: ModuleConfig::disabled(),
            format: ModuleConfig::new(),
            net: ModuleConfig::disabled(),
            time: ModuleConfig::new(),
            metrics: ModuleConfig::disabled(),
        }
    }

    /// Replaces the safety configuration.
    pub fn with_safety(self, safety: SafetyConfig) -> (r: Self)
        ensures
            r == (StdlibConfig { safety, ..self }),
    {
        StdlibConfig { safety, ..self }
    }

    /// Replaces the configuration of the process module.
    pub fn with_process(self, config: ModuleConfig) -> (r: Self)
        ensures
            r == (StdlibConfig { process: config, ..self }),
    {
        StdlibConfig { process: config, ..self }
    }

    /// Replaces the configuration of the filesystem module.
    pub fn with_fs(self, config: ModuleConfig) -> (r: Self)
        ensures
            r == (StdlibConfig { fs: config, ..self }),
    {
        StdlibConfig { fs: config, ..self }
    }

    /// Replaces the configuration of the path module.
    pub fn with_path(self, config: ModuleConfig) -> (r: Self)
        ensures
            r == (StdlibConfig { path: config, ..self }),
    {
        StdlibConfig { path: config, ..self }
    }

    /// Replaces the configuration of the environment module.
    pub fn with_env(self, config: ModuleConfig) -> (r: Self)
        ensures
            r == (StdlibConfig { env: config, ..self }),
    {
        StdlibConfig { env: config, ..self }
    }

    /// Replaces the configuration of the format module.
    pub fn with_format(self, config: ModuleConfig) -> (r: Self)
        ensures
            r == (StdlibConfig { format: config, ..self }),
    {
        StdlibConfig { format: config, ..self }
    }

    /// Replaces the configuration of the network module.
    pub fn with_net(self, config: ModuleConfig) -> (r: Self)
        ensures
            r == (StdlibConfig { net: config, ..self }),
    {
        StdlibConfig { net: config, ..self }
    }

    /// Replaces the configuration of the time module.
    pub fn with_time(self, config: ModuleConfig) -> (r: Self)
        ensures
            r == (StdlibConfig { time: config, ..self }),
    {
        StdlibConfig { time: config, ..self }
    }

    /// Replaces the configuration of the metrics module.
    pub fn with_metrics(self, config: ModuleConfig) -> (r: Self)
        ensures
            r == (StdlibConfig { metrics: config, ..self }),
    {
        StdlibConfig { metrics: config, ..self }
    }

    /// Enables every module.
    pub fn enable_all(self) -> (r: Self)
        ensures
            r == self.with_all(true),
    {
        StdlibConfig {
            safety: self.safety,
            process: self.process.with_enabled(true),
            fs: self.fs.with_enabled(true),
            path: self.path.with_enabled(true),
            env: self.env.with_enabled(true),
            format: self.format.with_enabled(true),
            net: self.net.with_enabled(true),
            time: self.time.with_enabled(true),
            metrics: self.metrics.with_enabled(true),
        }
    }

    /// Disables every module.
    pub fn disable_all(self) -> (r: Self)
        ensures
            r == self.with_all(false),
    {
        StdlibConfig {
            safety: self.safety,
            process: self.process.with_enabled(false),
            fs: self.fs.with_enabled(false),
            path: self.path.with_enabled(false),
            env: self.env.with_enabled(false),
            format: self.format.with_enabled(false),
            net: self.net.with_enabled(false),
            time: self.time.with_enabled(false),
            metrics: self.metrics.with_enabled(false),
        }
    }
}

impl Default for StdlibConfig {
    fn default() -> (r: Self)
        ensures
            r.is_default(),
    {
        StdlibConfig::new()
    }
}

/// The two layers of the default configuration: the process and network
/// modules are not registered; the filesystem, path, environment, format,
/// time and metrics modules are, and still the policy below them permits no
/// path, host, environment variable or command.
pub proof fn law_default_has_two_layers(
    config: StdlibConfig,
    path: Seq<char>,
    host: Seq<char>,
    name: Seq<char>,
    command: Seq<char>,
)
    requires
        config.is_default(),
    ensures
        !config.process.enabled,
        !config.net.enabled,
        config.fs.enabled,
        config.path.enabled,
        config.env.enabled,
        config.format.enabled,
        config.time.enabled,
        config.metrics.enabled,
        config.safety.paths.read_verdict(path) is Some,
        config.safety.paths.write_verdict(path) is Some,
        config.safety.hosts.verdict(host) is Some,
        config.safety.env_verdict(name) is Some,
        config.safety.command_verdict(command) is Some,
{
    crate::safety::laws::law_default_refuses_everything(config.safety, path, host, name, command);
}

} // verus!
