//! The registry: which host functions are registered for a configuration.
//!
//! The registry decides; the embedding program performs the registration
//! with the scripting host, one host function for each entry of the plan.

use vstd::prelude::*;
use crate::config::{ModuleConfig, StdlibConfig};
use crate::error::Error;
use crate::safety::SafetyConfig;
use crate::time::duration::Duration;

verus! {

/// The modules of the library.
#[derive(Debug, Clone, Copy, PartialEq, Eq, Structural)]
pub enum Module {
    Process,
    Fs,
    Path,
    Env,
    Format,
    Net,
    Time,
    Metrics,
}

/// The host functions that the modules offer.
#[derive(Debug, Clone, Copy, PartialEq, Eq, Structural)]
pub enum HostFunction {
    ProcessExec,
    ProcessSpawn,
    FsRead,
    FsWrite,
    FsExists,
    FsList,
    FsMkdir,
    FsRemove,
    PathJoin,
    PathDirname,
    PathBasename,
    PathExtension,
    PathNormalize,
    PathIsAbsolute,
    EnvGet,
    EnvSet,
    EnvCwd,
    FormatSprintf,
    FormatTemplate,
    FormatJsonEncode,
    FormatJsonDecode,
    NetGet,
    NetPost,
    TimeNow,
    TimeNowMillis,
    TimeSleep,
    TimeFormat,
    TimeParse,
    MetricsCounterInc,
    MetricsGaugeSet,
    MetricsHistogramObserve,
}

impl Module {
    /// The name under which the module is registered.
    pub open spec fn name_text(self) -> Seq<char> {
        match self {
            Module::Process => "process"@,
            Module::Fs => "fs"@,
            Module::Path => "path"@,
            Module::Env => "env"@,
            Module::Format => "format"@,
            Module::Net => "net"@,
            Module::Time => "time"@,
            Module::Metrics => "metrics"@,
        }
    }

    /// The name under which the module is registered.
    pub fn name(self) -> (r: &'static str)
        ensures
            r@ == self.name_text(),
    {
        match self {
            Module::Process => "process",
            Module::Fs => "fs",
            Module::Path => "path",
            Module::Env => "env",
            Module::Format => "format",
            Module::Net => "net",
            Module::Time => "time",
            Module::Metrics => "metrics",
        }
    }

    /// The host functions of the module, in the order of their registration.
    pub open spec fn functions(self) -> Seq<HostFunction> {
        match self {
            Module::Process => seq![HostFunction::ProcessExec, HostFunction::ProcessSpawn],
            Module::Fs => seq![
                HostFunction::FsRead,
                HostFunction::FsWrite,
                HostFunction::FsExists,
                HostFunction::FsList,
                HostFunction::FsMkdir,
                HostFunction::FsRemove,
            ],
            Module::Path => seq![
                HostFunction::PathJoin,
                HostFunction::PathDirname,
                HostFunction::PathBasename,
                HostFunction::PathExtension,
                HostFunction::PathNormalize,
                HostFunction::PathIsAbsolute,
            ],
            Module::Env => seq![HostFunction::EnvGet, HostFunction::EnvSet, HostFunction::EnvCwd],
            Module::Format => seq![
                HostFunction::FormatSprintf,
                HostFunction::FormatTemplate,
                HostFunction::FormatJsonEncode,
                HostFunction::FormatJsonDecode,
            ],
            Module::Net => seq![HostFunction::NetGet, HostFunction::NetPost],
            Module::Time => seq![
                HostFunction::TimeNow,
                HostFunction::TimeNowMillis,
                HostFunction::TimeSleep,
                HostFunction::TimeFormat,
                HostFunction::TimeParse,
            ],
            Module::Metrics => seq![
                HostFunction::MetricsCounterInc,
                HostFunction::MetricsGaugeSet,
                HostFunction::MetricsHistogramObserve,
            ],
        }
    }
}

impl HostFunction {
    /// The module that the function belongs to.
    pub open spec fn module_of(self) -> Module {
        match self {
            HostFunction::ProcessExec | HostFunction::ProcessSpawn => Module::Process,
            HostFunction::FsRead
            | HostFunction::FsWrite
            | HostFunction::FsExists
            | HostFunction::FsList
            | HostFunction::FsMkdir
            | HostFunction::FsRemove => Module::Fs,
            HostFunction::PathJoin
            | HostFunction::PathDirname
            | HostFunction::PathBasename
            | HostFunction::PathExtension
            | HostFunction::PathNormalize
            | HostFunction::PathIsAbsolute => Module::Path,
            HostFunction::EnvGet | HostFunction::EnvSet | HostFunction::EnvCwd => Module::Env,
            HostFunction::FormatSprintf
            | HostFunction::FormatTemplate
            | HostFunction::FormatJsonEncode
            | HostFunction::FormatJsonDecode => Module::Format,
            HostFunction::NetGet | HostFunction::NetPost => Module::Net,
            HostFunction::TimeNow
            | HostFunction::TimeNowMillis
            | HostFunction::TimeSleep
            | HostFunction::TimeFormat
            | HostFunction::TimeParse => Module::Time,
            HostFunction::MetricsCounterInc
            | HostFunction::MetricsGaugeSet
            | HostFunction::MetricsHistogramObserve => Module::Metrics,
        }
    }

    /// The name of the function within its module.
    pub open spec fn name_text(self) -> Seq<char> {
        match self {
            HostFunction::ProcessExec => "exec"@,
            HostFunction::ProcessSpawn => "spawn"@,
            HostFunction::FsRead => "read"@,
            HostFunction::FsWrite => "write"@,
            HostFunction::FsExists => "exists"@,
            HostFunction::FsList => "list"@,
            HostFunction::FsMkdir => "mkdir"@,
            HostFunction::FsRemove => "remove"@,
            HostFunction::PathJoin => "join"@,
            HostFunction::PathDirname => "dirname"@,
            HostFunction::PathBasename => "basename"@,
            HostFunction::PathExtension => "extension"@,
            HostFunction::PathNormalize => "normalize"@,
            HostFunction::PathIsAbsolute => "is_absolute"@,
            HostFunction::EnvGet => "get"@,
            HostFunction::EnvSet => "set"@,
            HostFunction::EnvCwd => "cwd"@,
            HostFunction::FormatSprintf => "sprintf"@,
            HostFunction::FormatTemplate => "template"@,
            HostFunction::FormatJsonEncode => "json_encode"@,
            HostFunction::FormatJsonDecode => "json_decode"@,
            HostFunction::NetGet => "get"@,
            HostFunction::NetPost => "post"@,
            HostFunction::TimeNow => "now"@,
            HostFunction::TimeNowMillis => "now_millis"@,
            HostFunction::TimeSleep => "sleep"@,
            HostFunction::TimeFormat => "format"@,
            HostFunction::TimeParse => "parse"@,
            HostFunction::MetricsCounterInc => "counter_inc"@,
            HostFunction::MetricsGaugeSet => "gauge_set"@,
            HostFunction::MetricsHistogramObserve => "histogram_observe"@,
        }
    }

    /// The module that the function belongs to.
    pub fn module(self) -> (r: Module)
        ensures
            r == self.module_of(),
    {
        match self {
            HostFunction::ProcessExec | HostFunction::ProcessSpawn => Module::Process,
            HostFunction::FsRead
            | HostFunction::FsWrite
            | HostFunction::FsExists
            | HostFunction::FsList
            | HostFunction::FsMkdir
            | HostFunction::FsRemove => Module::Fs,
            HostFunction::PathJoin
            | HostFunction::PathDirname
            | HostFunction::PathBasename
            | HostFunction::PathExtension
            | HostFunction::PathNormalize
            | HostFunction::PathIsAbsolute => Module::Path,
            HostFunction::EnvGet | HostFunction::EnvSet | HostFunction::EnvCwd => Module::Env,
            HostFunction::FormatSprintf
            | HostFunction::FormatTemplate
            | HostFunction::FormatJsonEncode
            | HostFunction::FormatJsonDecode => Module::Format,
            HostFunction::NetGet | HostFunction::NetPost => Module::Net,
            HostFunction::TimeNow
            | HostFunction::TimeNowMillis
            | HostFunction::TimeSleep
            | HostFunction::TimeFormat
            | HostFunction::TimeParse => Module::Time,
            HostFunction::MetricsCounterInc
            | HostFunction::MetricsGaugeSet
            | HostFunction::MetricsHistogramObserve => Module::Metrics,
        }
    }

    /// The name of the function within its module.
    pub fn name(self) -> (r: &'static str)
        ensures
            r@ == self.name_text(),
    {
        match self {
            HostFunction::ProcessExec => "exec",
            HostFunction::ProcessSpawn => "spawn",
            HostFunction::FsRead => "read",
            HostFunction::FsWrite => "write",
            HostFunction::FsExists => "exists",
            HostFunction::FsList => "list",
            HostFunction::FsMkdir => "mkdir",
            HostFunction::FsRemove => "remove",
            HostFunction::PathJoin => "join",
            HostFunction::PathDirname => "dirname",
            HostFunction::PathBasename => "basename",
            HostFunction::PathExtension => "extension",
            HostFunction::PathNormalize => "normalize",
            HostFunction::PathIsAbsolute => "is_absolute",
            HostFunction::EnvGet => "get",
            HostFunction::EnvSet => "set",
            HostFunction::EnvCwd => "cwd",
            HostFunction::FormatSprintf => "sprintf",
            HostFunction::FormatTemplate => "template",
            HostFunction::FormatJsonEncode => "json_encode",
            HostFunction::FormatJsonDecode => "json_decode",
            HostFunction::NetGet => "get",
            HostFunction::NetPost => "post",
            HostFunction::TimeNow => "now",
            HostFunction::TimeNowMillis => "now_millis",
            HostFunction::TimeSleep => "sleep",
            HostFunction::TimeFormat => "format",
            HostFunction::TimeParse => "parse",
            HostFunction::MetricsCounterInc => "counter_inc",
            HostFunction::MetricsGaugeSet => "gauge_set",
            HostFunction::MetricsHistogramObserve => "histogram_observe",
        }
    }
}

/// How many host functions there are.
pub const FUNCTION_COUNT: usize = 31;

/// The host function at position `i` of the order of registration: module
/// by module (process, fs, path, env, format, net, time, metrics), and
/// within a module in the order of `Module::functions`.
pub open spec fn function_at(i: int) -> HostFunction {
    if i == 0 {
        HostFunction::ProcessExec
    } else if i == 1 {
        HostFunction::ProcessSpawn
    } else if i == 2 {
        HostFunction::FsRead
    } else if i == 3 {
        HostFunction::FsWrite
    } else if i == 4 {
        HostFunction::FsExists
    } else if i == 5 {
        HostFunction::FsList
    } else if i == 6 {
        HostFunction::FsMkdir
    } else if i == 7 {
        HostFunction::FsRemove
    } else if i == 8 {
        HostFunction::PathJoin
    } else if i == 9 {
        HostFunction::PathDirname
    } else if i == 10 {
        HostFunction::PathBasename
    } else if i == 11 {
        HostFunction::PathExtension
    } else if i == 12 {
        HostFunction::PathNormalize
    } else if i == 13 {
        HostFunction::PathIsAbsolute
    } else if i == 14 {
        HostFunction::EnvGet
    } else if i == 15 {
        HostFunction::EnvSet
    } else if i == 16 {
        HostFunction::EnvCwd
    } else if i == 17 {
        HostFunction::FormatSprintf
    } else if i == 18 {
        HostFunction::FormatTemplate
    } else if i == 19 {
        HostFunction::FormatJsonEncode
    } else if i == 20 {
        HostFunction::FormatJsonDecode
    } else if i == 21 {
        HostFunction::NetGet
    } else if i == 22 {
        HostFunction::NetPost
    } else if i == 23 {
        HostFunction::TimeNow
    } else if i == 24 {
        HostFunction::TimeNowMillis
    } else if i == 25 {
        HostFunction::TimeSleep
    } else if i == 26 {
        HostFunction::TimeFormat
    } else if i == 27 {
        HostFunction::TimeParse
    } else if i == 28 {
        HostFunction::MetricsCounterInc
    } else if i == 29 {
        HostFunction::MetricsGaugeSet
    } else {
        HostFunction::MetricsHistogramObserve
    }
}

/// The position of a host function in the order of registration.
pub open spec fn position_of(function: HostFunction) -> int {
    match function {
        HostFunction::ProcessExec => 0,
        HostFunction::ProcessSpawn => 1,
        HostFunction::FsRead => 2,
        HostFunction::FsWrite => 3,
        HostFunction::FsExists => 4,
        HostFunction::FsList => 5,
        HostFunction::FsMkdir => 6,
        HostFunction::FsRemove => 7,
        HostFunction::PathJoin => 8,
        HostFunction::PathDirname => 9,
        HostFunction::PathBasename => 10,
        HostFunction::PathExtension => 11,
        HostFunction::PathNormalize => 12,
        HostFunction::PathIsAbsolute => 13,
        HostFunction::EnvGet => 14,
        HostFunction::EnvSet => 15,
        HostFunction::EnvCwd => 16,
        HostFunction::FormatSprintf => 17,
        HostFunction::FormatTemplate => 18,
        HostFunction::FormatJsonEncode => 19,
        HostFunction::FormatJsonDecode => 20,
        HostFunction::NetGet => 21,
        HostFunction::NetPost => 22,
        HostFunction::TimeNow => 23,
        HostFunction::TimeNowMillis => 24,
        HostFunction::TimeSleep => 25,
        HostFunction::TimeFormat => 26,
        HostFunction::TimeParse => 27,
        HostFunction::MetricsCounterInc => 28,
        HostFunction::MetricsGaugeSet => 29,
        HostFunction::MetricsHistogramObserve => 30,
    }
}

/// The host function at position `i` of the order of registration.
pub fn function_by_position(i: usize) -> (r: HostFunction)
    requires
        i < FUNCTION_COUNT,
    ensures
        r == function_at(i as int),
{
    if i == 0 {
        HostFunction::ProcessExec
    } else if i == 1 {
        HostFunction::ProcessSpawn
    } else if i == 2 {
        HostFunction::FsRead
    } else if i == 3 {
        HostFunction::FsWrite
    } else if i == 4 {
        HostFunction::FsExists
    } else if i == 5 {
        HostFunction::FsList
    } else if i == 6 {
        HostFunction::FsMkdir
    } else if i == 7 {
        HostFunction::FsRemove
    } else if i == 8 {
        HostFunction::PathJoin
    } else if i == 9 {
        HostFunction::PathDirname
    } else if i == 10 {
        HostFunction::PathBasename
    } else if i == 11 {
        HostFunction::PathExtension
    } else if i == 12 {
        HostFunction::PathNormalize
    } else if i == 13 {
        HostFunction::PathIsAbsolute
    } else if i == 14 {
        HostFunction::EnvGet
    } else if i == 15 {
        HostFunction::EnvSet
    } else if i == 16 {
        HostFunction::EnvCwd
    } else if i == 17 {
        HostFunction::FormatSprintf
    } else if i == 18 {
        HostFunction::FormatTemplate
    } else if i == 19 {
        HostFunction::FormatJsonEncode
    } else if i == 20 {
        HostFunction::FormatJsonDecode
    } else if i == 21 {
        HostFunction::NetGet
    } else if i == 22 {
        HostFunction::NetPost
    } else if i == 23 {
        HostFunction::TimeNow
    } else if i == 24 {
        HostFunction::TimeNowMillis
    } else if i == 25 {
        HostFunction::TimeSleep
    } else if i == 26 {
        HostFunction::TimeFormat
    } else if i == 27 {
        HostFunction::TimeParse
    } else if i == 28 {
        HostFunction::MetricsCounterInc
    } else if i == 29 {
        HostFunction::MetricsGaugeSet
    } else {
        HostFunction::MetricsHistogramObserve
    }
}

/// Of the first `n` host functions, those whose module `config` enables, in
/// the order of registration.
pub open spec fn registered_among(config: StdlibConfig, n: nat) -> Seq<HostFunction>
    decreases n,
{
    if n == 0 {
        Seq::empty()
    } else {
        let before = registered_among(config, (n - 1) as nat);
        let f = function_at(n - 1);
        if module_config_of(config, f.module_of()).enabled {
            before.push(f)
        } else {
            before
        }
    }
}

/// The host functions that are registered for `config`: those of the
/// enabled modules, in the order of registration.
pub open spec fn registrations(config: StdlibConfig) -> Seq<HostFunction> {
    registered_among(config, FUNCTION_COUNT as nat)
}

/// Registry of the library's modules.
#[derive(Debug)]
pub struct StdlibRegistry {
    config: StdlibConfig,
}

impl StdlibRegistry {
    /// The configuration of the registry.
    pub closed spec fn configuration(&self) -> StdlibConfig {
        self.config
    }

    /// A registry for `config`. It never fails.
    pub fn new(config: StdlibConfig) -> (r: Result<Self, Error>)
        ensures
            r matches Ok(registry) && registry.configuration() == config,
    {
        Ok(StdlibRegistry { config })
    }

    /// A registry for the default configuration.
    pub fn default_config() -> (r: Result<Self, Error>)
        ensures
            r matches Ok(registry) && registry.configuration().is_default(),
    {
        Self::new(StdlibConfig::new())
    }

    /// The configuration.
    pub fn config(&self) -> (r: &StdlibConfig)
        ensures
            *r == self.configuration(),
    {
        &self.config
    }

    /// The safety configuration.
    pub fn safety(&self) -> (r: &SafetyConfig)
        ensures
            *r == self.configuration().safety,
    {
        &self.config.safety
    }

    /// The configuration of `module`.
    pub fn module_config(&self, module: Module) -> (r: &ModuleConfig)
        ensures
            *r == module_config_of(self.configuration(), module),
    {
        match module {
            Module::Process => &self.config.process,
            Module::Fs => &self.config.fs,
            Module::Path => &self.config.path,
            Module::Env => &self.config.env,
            Module::Format => &self.config.format,
            Module::Net => &self.config.net,
            Module::Time => &self.config.time,
            Module::Metrics => &self.config.metrics,
        }
    }

    /// The timeout that the functions of `module` are registered with.
    pub fn module_timeout(&self, module: Module) -> (r: Option<Duration>)
        ensures
            r == module_config_of(self.configuration(), module).timeout,
    {
        self.module_config(module).timeout
    }

    /// The host functions to register: those of every enabled module, in
    /// the order of registration.
    pub fn register_all(&self) -> (r: Vec<HostFunction>)
        ensures
            r@ == registrations(self.configuration()),
    {
        let mut out: Vec<HostFunction> = Vec::new();
        let mut i: usize = 0;
        while i < FUNCTION_COUNT
            invariant
                i <= FUNCTION_COUNT,
                out@ == registered_among(self.configuration(), i as nat),
            decreases FUNCTION_COUNT - i,
        {
            let f = function_by_position(i);
            if self.module_config(f.module()).enabled {
                out.push(f);
            }
            i += 1;
        }
        out
    }

    /// The host functions of the process module.
    pub fn register_process(&self) -> (r: Vec<HostFunction>)
        ensures
            r@ == Module::Process.functions(),
    {
        vec![HostFunction::ProcessExec, HostFunction::ProcessSpawn]
    }

    /// The host functions of the filesystem module.
    pub fn register_fs(&self) -> (r: Vec<HostFunction>)
        ensures
            r@ == Module::Fs.functions(),
    {
        vec![
            HostFunction::FsRead,
            HostFunction::FsWrite,
            HostFunction::FsExists,
            HostFunction::FsList,
            HostFunction::FsMkdir,
            HostFunction::FsRemove,
        ]
    }

    /// The host functions of the path module.
    pub fn register_path(&self) -> (r: Vec<HostFunction>)
        ensures
            r@ == Module::Path.functions(),
    {
        vec![
            HostFunction::PathJoin,
            HostFunction::PathDirname,
            HostFunction::PathBasename,
            HostFunction::PathExtension,
            HostFunction::PathNormalize,
            HostFunction::PathIsAbsolute,
        ]
    }

    /// The host functions of the environment module.
    pub fn register_env(&self) -> (r: Vec<HostFunction>)
        ensures
            r@ == Module::Env.functions(),
    {
        vec![HostFunction::EnvGet, HostFunction::EnvSet, HostFunction::EnvCwd]
    }

    /// The host functions of the format module.
    pub fn register_format(&self) -> (r: Vec<HostFunction>)
        ensures
            r@ == Module::Format.functions(),
    {
        vec![
            HostFunction::FormatSprintf,
            HostFunction::FormatTemplate,
            HostFunction::FormatJsonEncode,
            HostFunction::FormatJsonDecode,
        ]
    }

    /// The host functions of the network module.
    pub fn register_net(&self) -> (r: Vec<HostFunction>)
        ensures
            r@ == Module::Net.functions(),
    {
        vec![HostFunction::NetGet, HostFunction::NetPost]
    }

    /// The host functions of the time module.
    pub fn register_time(&self) -> (r: Vec<HostFunction>)
        ensures
            r@ == Module::Time.functions(),
    {
        vec![
            HostFunction::TimeNow,
            HostFunction::TimeNowMillis,
            HostFunction::TimeSleep,
            HostFunction::TimeFormat,
            HostFunction::TimeParse,
        ]
    }

    /// The host functions of the metrics module.
    pub fn register_metrics(&self) -> (r: Vec<HostFunction>)
        ensures
            r@ == Module::Metrics.functions(),
    {
        vec![
            HostFunction::MetricsCounterInc,
            HostFunction::MetricsGaugeSet,
            HostFunction::MetricsHistogramObserve,
        ]
    }
}

/// The configuration of `module` within `config`.
pub open spec fn module_config_of(config: StdlibConfig, module: Module) -> ModuleConfig {
    match module {
        Module::Process => config.process,
        Module::Fs => config.fs,
        Module::Path => config.path,
        Module::Env => config.env,
        Module::Format => config.format,
        Module::Net => config.net,
        Module::Time => config.time,
        Module::Metrics => config.metrics,
    }
}

/// Every host function has its place in the order of registration.
pub proof fn lemma_position(function: HostFunction)
    ensures
        0 <= position_of(function) < FUNCTION_COUNT,
        function_at(position_of(function)) == function,
{
}

/// Among the first `n` host functions, the registered ones are those whose
/// module is enabled.
pub proof fn lemma_registered_among(config: StdlibConfig, n: nat, function: HostFunction)
    ensures
        registered_among(config, n).contains(function) <==> (position_of(function) < n
            && module_config_of(config, function.module_of()).enabled),
    decreases n,
{
    lemma_position(function);
    if n > 0 {
        let before = registered_among(config, (n - 1) as nat);
        let f = function_at(n - 1);
        lemma_registered_among(config, (n - 1) as nat, function);
        lemma_position(f);
        if module_config_of(config, f.module_of()).enabled {
            let all = before.push(f);
            if before.contains(function) {
                let k = choose|k: int| 0 <= k < before.len() && before[k] == function;
                assert(all[k] == function);
            }
            if f == function {
                assert(all[before.len() as int] == function);
            }
            if all.contains(function) {
                let k = choose|k: int| 0 <= k < all.len() && all[k] == function;
                if k < before.len() {
                    assert(before[k] == function);
                }
            }
        }
    }
}

/// A host function is registered exactly when its module is enabled.
pub proof fn law_registered_iff_enabled(config: StdlibConfig, function: HostFunction)
    ensures
        registrations(config).contains(function) <==> module_config_of(
            config,
            function.module_of(),
        ).enabled,
{
    lemma_position(function);
    lemma_registered_among(config, FUNCTION_COUNT as nat, function);
}

/// For the default configuration the functions of the process and network
/// modules are not registered, and those of every other module are.
pub proof fn law_default_registrations(config: StdlibConfig, function: HostFunction)
    requires
        config.is_default(),
    ensures
        registrations(config).contains(function) <==> (function.module_of() != Module::Process
            && function.module_of() != Module::Net),
{
    law_registered_iff_enabled(config, function);
}

/// The functions listed for a module are the functions of that module.
pub proof fn law_module_functions(module: Module, function: HostFunction)
    ensures
        module.functions().contains(function) <==> function.module_of() == module,
{
    let fs = module.functions();
    if function.module_of() == module {
        let p = position_of(function) - position_of(fs[0]);
        assert(fs[p] == function);
    }
    if fs.contains(function) {
        let k = choose|k: int| 0 <= k < fs.len() && fs[k] == function;
        assert(fs[k].module_of() == module);
    }
}

} // verus!
