//! The safety policy engine.
//!
//! Every capability of a hosted script passes one of the checks here before
//! it acts. The policies deny by default: nothing is permitted unless it is
//! listed, and what is denied stays denied whatever else is listed. All
//! checks are pure decisions on their arguments.

pub mod laws;

use vstd::prelude::*;
use crate::collections::StringSet;
use crate::containment::{components_of, is_component_prefix, is_under, texts, under_any};
use crate::error::{Error, ErrorKind};
use crate::text::{chars_eq, chars_of, ends_with, lowercase, slice_chars, to_lowercase};
use crate::time::duration::Duration;

verus! {

/// What a check decides: `None` when the operand is permitted, else the kind
/// and the detail of the error that is reported.
pub type Verdict = Option<(ErrorKind, Seq<char>)>;

/// The verdict that a check's result stands for.
pub open spec fn verdict_of(r: Result<(), Error>) -> Verdict {
    match r {
        Ok(_) => None,
        Err(e) => Some((e.kind(), e.detail())),
    }
}

/// Whether `path` lies under one of the prefixes in `set`.
pub fn under_some(path: &str, set: &StringSet) -> (r: bool)
    ensures
        r == under_any(path@, set@),
{
    let target = components_of(path);
    let n = set.len();
    let mut i: usize = 0;
    while i < n
        invariant
            n == set.elements().len(),
            i <= n,
            texts(target@) == crate::containment::components(path@),
            forall|k: int| 0 <= k < i ==> !is_under(path@, set.elements()[k]),
        decreases n - i,
    {
        let base = components_of(set.get(i).as_str());
        if is_component_prefix(&base, &target) {
            proof {
                let p = set.elements()[i as int];
                assert(set.elements().contains(p));
                assert(set@.contains(p) && is_under(path@, p));
            }
            return true;
        }
        i += 1;
    }
    proof {
        if under_any(path@, set@) {
            let p = choose|p: Seq<char>| set@.contains(p) && is_under(path@, p);
            let k = choose|k: int| 0 <= k < set.elements().len() && set.elements()[k] == p;
            assert(!is_under(path@, set.elements()[k]));
        }
    }
    false
}

/// Allowlist for filesystem paths: prefixes that may be read, prefixes that
/// may be written, and denied prefixes that override both.
#[derive(Debug, Clone)]
pub struct PathAllowlist {
    /// Prefixes under which reading is allowed.
    pub read: StringSet,
    /// Prefixes under which writing is allowed.
    pub write: StringSet,
    /// Prefixes under which nothing is allowed.
    pub deny: StringSet,
}

impl PathAllowlist {
    /// Whether `path` lies under a denied prefix.
    pub open spec fn denies(&self, path: Seq<char>) -> bool {
        under_any(path, self.deny@)
    }

    /// Whether `path` may be read: it is not denied and lies under a
    /// readable prefix.
    pub open spec fn permits_read(&self, path: Seq<char>) -> bool {
        !self.denies(path) && under_any(path, self.read@)
    }

    /// Whether `path` may be written: it is not denied and lies under a
    /// writable prefix.
    pub open spec fn permits_write(&self, path: Seq<char>) -> bool {
        !self.denies(path) && under_any(path, self.write@)
    }

    /// The verdict of a read check on `path`.
    pub open spec fn read_verdict(&self, path: Seq<char>) -> Verdict {
        if self.permits_read(path) {
            None
        } else {
            Some((ErrorKind::PathNotAllowed, path))
        }
    }

    /// The verdict of a write check on `path`.
    pub open spec fn write_verdict(&self, path: Seq<char>) -> Verdict {
        if self.permits_write(path) {
            None
        } else {
            Some((ErrorKind::PathNotAllowed, path))
        }
    }

    /// The allowlist that permits nothing.
    pub fn none() -> (r: Self)
        ensures
            r.read@ == Set::<Seq<char>>::empty(),
            r.write@ == Set::<Seq<char>>::empty(),
            r.deny@ == Set::<Seq<char>>::empty(),
    {
        PathAllowlist { read: StringSet::new(), write: StringSet::new(), deny: StringSet::new() }
    }

    /// The allowlist that permits reading and writing everywhere under the
    /// root.
    pub fn all() -> (r: Self)
        ensures
            r.read@ == set![seq!['/']],
            r.write@ == set![seq!['/']],
            r.deny@ == Set::<Seq<char>>::empty(),
    {
        proof {
            reveal_strlit("/");
            assert("/"@ =~= seq!['/']);
        }
        let read = StringSet::new().insert("/".to_owned());
        let write = StringSet::new().insert("/".to_owned());
        assert(read@ =~= set![seq!['/']]);
        assert(write@ =~= set![seq!['/']]);
        PathAllowlist { read, write, deny: StringSet::new() }
    }

    /// Adds a prefix under which reading is allowed.
    pub fn allow_read(self, path: &str) -> (r: Self)
        ensures
            r.read@ == self.read@.insert(path@),
            r.write == self.write,
            r.deny == self.deny,
    {
        PathAllowlist {
            read: self.read.insert(path.to_owned()),
            write: self.write,
            deny: self.deny,
        }
    }

    /// Adds a prefix under which writing is allowed.
    pub fn allow_write(self, path: &str) -> (r: Self)
        ensures
            r.read == self.read,
            r.write@ == self.write@.insert(path@),
            r.deny == self.deny,
    {
        PathAllowlist {
            read: self.read,
            write: self.write.insert(path.to_owned()),
            deny: self.deny,
        }
    }

    /// Adds a prefix under which reading and writing are allowed.
    pub fn allow_rw(self, path: &str) -> (r: Self)
        ensures
            r.read@ == self.read@.insert(path@),
            r.write@ == self.write@.insert(path@),
            r.deny == self.deny,
    {
        self.allow_read(path).allow_write(path)
    }

    /// Adds a denied prefix.
    pub fn deny(self, path: &str) -> (r: Self)
        ensures
            r.read == self.read,
            r.write == self.write,
            r.deny@ == self.deny@.insert(path@),
    {
        PathAllowlist {
            read: self.read,
            write: self.write,
            deny: self.deny.insert(path.to_owned()),
        }
    }

    /// Whether `path` lies under a denied prefix.
    pub fn is_denied(&self, path: &str) -> (r: bool)
        ensures
            r == self.denies(path@),
    {
        under_some(path, &self.deny)
    }

    /// Whether `path` may be read.
    pub fn can_read(&self, path: &str) -> (r: bool)
        ensures
            r == self.permits_read(path@),
    {
        if self.is_denied(path) {
            return false;
        }
        under_some(path, &self.read)
    }

    /// Whether `path` may be written.
    pub fn can_write(&self, path: &str) -> (r: bool)
        ensures
            r == self.permits_write(path@),
    {
        if self.is_denied(path) {
            return false;
        }
        under_some(path, &self.write)
    }

    /// Checks that `path` may be read.
    pub fn check_read(&self, path: &str) -> (r: Result<(), Error>)
        ensures
            verdict_of(r) == self.read_verdict(path@),
    {
        if self.can_read(path) {
            Ok(())
        } else {
            Err(Error::path_not_allowed(path))
        }
    }

    /// Checks that `path` may be written.
    pub fn check_write(&self, path: &str) -> (r: Result<(), Error>)
        ensures
            verdict_of(r) == self.write_verdict(path@),
    {
        if self.can_write(path) {
            Ok(())
        } else {
            Err(Error::path_not_allowed(path))
        }
    }
}

/// Whether the lower-case host `host` matches the lower-case pattern
/// `pattern`: `*` matches every host; `*.suffix` matches `suffix` itself and
/// every host that ends with `.suffix`; any other pattern matches the host
/// equal to it.
pub open spec fn pattern_matches(host: Seq<char>, pattern: Seq<char>) -> bool {
    if pattern == seq!['*'] {
        true
    } else if pattern.len() >= 2 && pattern[0] == '*' && pattern[1] == '.' {
        pattern.skip(1).is_suffix_of(host) || host == pattern.skip(2)
    } else {
        host == pattern
    }
}

/// Whether the lower-case host `host` matches the pattern `pattern` as it
/// was configured: the pattern `*` matches at once, any other pattern is
/// taken in lower case.
pub open spec fn configured_matches(host: Seq<char>, pattern: Seq<char>) -> bool {
    pattern == seq!['*'] || pattern_matches(host, lowercase(pattern))
}

/// Whether the lower-case host `host` matches one of `patterns`.
pub open spec fn matches_any(host: Seq<char>, patterns: Set<Seq<char>>) -> bool {
    exists|p: Seq<char>| patterns.contains(p) && configured_matches(host, p)
}

fn is_star(pattern: &Vec<char>) -> (r: bool)
    ensures
        r == (pattern@ == seq!['*']),
{
    if pattern.len() == 1 && pattern[0] == '*' {
        assert(pattern@ =~= seq!['*']);
        true
    } else {
        assert(pattern@ != seq!['*']) by {
            if pattern@ == seq!['*'] {
                assert(seq!['*'].len() == 1);
                assert(seq!['*'][0] == '*');
            }
        }
        false
    }
}

/// Whether the lower-case host `host` matches the configured pattern
/// `pattern`.
pub fn matches_configured(host: &Vec<char>, pattern: &str) -> (r: bool)
    ensures
        r == configured_matches(host@, pattern@),
{
    let raw = chars_of(pattern);
    if is_star(&raw) {
        return true;
    }
    let lowered = to_lowercase(pattern);
    let p = chars_of(lowered.as_str());
    matches_lowered(host, &p)
}

/// Whether the host `host` matches the pattern `pattern`, both already in
/// lower case.
pub fn matches_lowered(host: &Vec<char>, pattern: &Vec<char>) -> (r: bool)
    ensures
        r == pattern_matches(host@, pattern@),
{
    if is_star(pattern) {
        return true;
    }
    if pattern.len() >= 2 && pattern[0] == '*' && pattern[1] == '.' {
        let suffix = slice_chars(pattern, 1, pattern.len());
        assert(suffix@ =~= pattern@.skip(1));
        if ends_with(host, &suffix) {
            return true;
        }
        let bare = slice_chars(pattern, 2, pattern.len());
        assert(bare@ =~= pattern@.skip(2));
        chars_eq(host, &bare)
    } else {
        chars_eq(host, pattern)
    }
}

/// Whether the lower-case host `host` matches one of the patterns in `set`.
pub fn matches_some(host: &Vec<char>, set: &StringSet) -> (r: bool)
    ensures
        r == matches_any(host@, set@),
{
    let n = set.len();
    let mut i: usize = 0;
    while i < n
        invariant
            n == set.elements().len(),
            i <= n,
            forall|k: int| 0 <= k < i ==> !configured_matches(host@, set.elements()[k]),
        decreases n - i,
    {
        if matches_configured(host, set.get(i).as_str()) {
            proof {
                let p = set.elements()[i as int];
                assert(set.elements().contains(p));
                assert(set@.contains(p) && configured_matches(host@, p));
            }
            return true;
        }
        i += 1;
    }
    proof {
        if matches_any(host@, set@) {
            let p = choose|p: Seq<char>| set@.contains(p) && configured_matches(host@, p);
            let k = choose|k: int| 0 <= k < set.elements().len() && set.elements()[k] == p;
            assert(!configured_matches(host@, set.elements()[k]));
        }
    }
    false
}

/// Allowlist for network hosts: patterns that are allowed, and denied
/// patterns that override them.
#[derive(Debug, Clone)]
pub struct HostAllowlist {
    /// Patterns of hosts that may be contacted.
    pub allowed: StringSet,
    /// Patterns of hosts that may never be contacted.
    pub denied: StringSet,
}

impl HostAllowlist {
    /// Whether `host` may be contacted: in lower case it matches no denied
    /// pattern and at least one allowed pattern.
    pub open spec fn permits(&self, host: Seq<char>) -> bool {
        !matches_any(lowercase(host), self.denied@) && matches_any(lowercase(host), self.allowed@)
    }

    /// The verdict of a check on `host`.
    pub open spec fn verdict(&self, host: Seq<char>) -> Verdict {
        if self.permits(host) {
            None
        } else {
            Some((ErrorKind::HostNotAllowed, host))
        }
    }

    /// The allowlist that permits no host.
    pub fn none() -> (r: Self)
        ensures
            r.allowed@ == Set::<Seq<char>>::empty(),
            r.denied@ == Set::<Seq<char>>::empty(),
    {
        HostAllowlist { allowed: StringSet::new(), denied: StringSet::new() }
    }

    /// The allowlist that permits every host.
    pub fn all() -> (r: Self)
        ensures
            r.allowed@ == set![seq!['*']],
            r.denied@ == Set::<Seq<char>>::empty(),
    {
        proof {
            reveal_strlit("*");
            assert("*"@ =~= seq!['*']);
        }
        let allowed = StringSet::new().insert("*".to_owned());
        assert(allowed@ =~= set![seq!['*']]);
        HostAllowlist { allowed, denied: StringSet::new() }
    }

    /// Adds an allowed pattern.
    pub fn allow(self, host: &str) -> (r: Self)
        ensures
            r.allowed@ == self.allowed@.insert(host@),
            r.denied == self.denied,
    {
        HostAllowlist { allowed: self.allowed.insert(host.to_owned()), denied: self.denied }
    }

    /// Adds a denied pattern.
    pub fn deny(self, host: &str) -> (r: Self)
        ensures
            r.allowed == self.allowed,
            r.denied@ == self.denied@.insert(host@),
    {
        HostAllowlist { allowed: self.allowed, denied: self.denied.insert(host.to_owned()) }
    }

    /// Whether `host` matches the configured pattern `pattern`; the host is
    /// compared as it is given.
    pub fn host_matches(host: &str, pattern: &str) -> (r: bool)
        ensures
            r == configured_matches(host@, pattern@),
    {
        let h = chars_of(host);
        matches_configured(&h, pattern)
    }

    /// Whether `host` may be contacted.
    pub fn can_access(&self, host: &str) -> (r: bool)
        ensures
            r == self.permits(host@),
    {
        let lowered = to_lowercase(host);
        let h = chars_of(lowered.as_str());
        if matches_some(&h, &self.denied) {
            return false;
        }
        matches_some(&h, &self.allowed)
    }

    /// Checks that `host` may be contacted.
    pub fn check(&self, host: &str) -> (r: Result<(), Error>)
        ensures
            verdict_of(r) == self.verdict(host@),
    {
        if self.can_access(host) {
            Ok(())
        } else {
            Err(Error::host_not_allowed(host))
        }
    }
}

/// The message of the error for a command while process execution is off.
pub open spec fn process_off_message() -> Seq<char> {
    "process execution not allowed"@
}

/// Safety configuration: the path and host allowlists, the environment and
/// command allowlists, the process gate and the timeouts.
#[derive(Debug, Clone)]
pub struct SafetyConfig {
    /// Path allowlist.
    pub paths: PathAllowlist,
    /// Host allowlist.
    pub hosts: HostAllowlist,
    /// Names of the environment variables that may be used; `None` for all.
    pub env_vars: Option<StringSet>,
    /// Whether process execution is allowed at all.
    pub allow_process: bool,
    /// The commands that may run once process execution is allowed; `None`
    /// for all.
    pub allowed_commands: Option<StringSet>,
    /// The timeout of an operation that asks for none.
    pub default_timeout: Duration,
    /// The longest timeout that an operation may get.
    pub max_timeout: Duration,
}

/// Whether `name` passes an optional allowlist: every name passes where
/// there is none, else the listed names.
pub open spec fn listed(list: Option<StringSet>, name: Seq<char>) -> bool {
    match list {
        None => true,
        Some(set) => set@.contains(name),
    }
}

fn is_listed(list: &Option<StringSet>, name: &str) -> (r: bool)
    ensures
        r == listed(*list, name@),
{
    match list {
        None => true,
        Some(set) => set.contains(name),
    }
}

impl SafetyConfig {
    /// The configuration that denies everything but for its timeouts: no
    /// path, no host, no environment variable, no process.
    pub open spec fn is_default(&self) -> bool {
        &&& self.paths.read@ == Set::<Seq<char>>::empty()
        &&& self.paths.write@ == Set::<Seq<char>>::empty()
        &&& self.paths.deny@ == Set::<Seq<char>>::empty()
        &&& self.hosts.allowed@ == Set::<Seq<char>>::empty()
        &&& self.hosts.denied@ == Set::<Seq<char>>::empty()
        &&& self.env_vars matches Some(vars) && vars@ == Set::<Seq<char>>::empty()
        &&& !self.allow_process
        &&& self.allowed_commands is None
        &&& self.default_timeout == Duration::from_secs_spec(30)
        &&& self.max_timeout == Duration::from_secs_spec(300)
    }

    /// The permissive configuration: everything under the root, every host,
    /// every environment variable, every command.
    pub open spec fn is_permissive(&self) -> bool {
        &&& self.paths.read@ == set![seq!['/']]
        &&& self.paths.write@ == set![seq!['/']]
        &&& self.paths.deny@ == Set::<Seq<char>>::empty()
        &&& self.hosts.allowed@ == set![seq!['*']]
        &&& self.hosts.denied@ == Set::<Seq<char>>::empty()
        &&& self.env_vars is None
        &&& self.allow_process
        &&& self.allowed_commands is None
        &&& self.default_timeout == Duration::from_secs_spec(60)
        &&& self.max_timeout == Duration::from_secs_spec(3600)
    }

    /// The strict configuration: nothing is allowed, and the command
    /// allowlist is explicitly empty.
    pub open spec fn is_strict(&self) -> bool {
        &&& self.paths.read@ == Set::<Seq<char>>::empty()
        &&& self.paths.write@ == Set::<Seq<char>>::empty()
        &&& self.paths.deny@ == Set::<Seq<char>>::empty()
        &&& self.hosts.allowed@ == Set::<Seq<char>>::empty()
        &&& self.hosts.denied@ == Set::<Seq<char>>::empty()
        &&& self.env_vars matches Some(vars) && vars@ == Set::<Seq<char>>::empty()
        &&& !self.allow_process
        &&& self.allowed_commands matches Some(commands) && commands@ == Set::<Seq<char>>::empty()
        &&& self.default_timeout == Duration::from_secs_spec(10)
        &&& self.max_timeout == Duration::from_secs_spec(30)
    }

    /// Whether the environment variable `name` may be used.
    pub open spec fn permits_env(&self, name: Seq<char>) -> bool {
        listed(self.env_vars, name)
    }

    /// Whether `command` may run: process execution is on and the command
    /// passes the command allowlist.
    pub open spec fn permits_command(&self, command: Seq<char>) -> bool {
        self.allow_process && listed(self.allowed_commands, command)
    }

    /// The verdict of a check on the environment variable `name`.
    pub open spec fn env_verdict(&self, name: Seq<char>) -> Verdict {
        if self.permits_env(name) {
            None
        } else {
            Some((ErrorKind::EnvNotAllowed, name))
        }
    }

    /// The verdict of a check on `command`. The process gate is looked at
    /// first: while it is off the error is the same for every command.
    pub open spec fn command_verdict(&self, command: Seq<char>) -> Verdict {
        if !self.allow_process {
            Some((ErrorKind::NotPermitted, process_off_message()))
        } else if !listed(self.allowed_commands, command) {
            Some((ErrorKind::CommandNotAllowed, command))
        } else {
            None
        }
    }

    /// The timeout that a request for `timeout` gets: the shorter of the
    /// request and the maximum.
    pub open spec fn clamped(&self, timeout: Duration) -> Duration {
        timeout.minimum(self.max_timeout)
    }

    /// The timeout of an operation: the default where none is asked for,
    /// else the request clamped to the maximum.
    pub open spec fn resolved(&self, requested: Option<Duration>) -> Duration {
        match requested {
            None => self.default_timeout,
            Some(t) => self.clamped(t),
        }
    }

    /// The default configuration.
    pub fn new() -> (r: Self)
        ensures
            r.is_default(),
    {
        SafetyConfig {
            paths: PathAllowlist::none(),
            hosts: HostAllowlist::none(),
            env_vars: Some(StringSet::new()),
            allow_process: false,
            allowed_commands: None,
            default_timeout: Duration::from_secs(30),
            max_timeout: Duration::from_secs(300),
        }
    }

    /// The permissive configuration, for trusted code only.
    pub fn permissive() -> (r: Self)
        ensures
            r.is_permissive(),
    {
        SafetyConfig {
            paths: PathAllowlist::all(),
            hosts: HostAllowlist::all(),
            env_vars: None,
            allow_process: true,
            allowed_commands: None,
            default_timeout: Duration::from_secs(60),
            max_timeout: Duration::from_secs(3600),
        }
    }

    /// The strict configuration.
    pub fn strict() -> (r: Self)
        ensures
            r.is_strict(),
    {
        SafetyConfig {
            paths: PathAllowlist::none(),
            hosts: HostAllowlist::none(),
            env_vars: Some(StringSet::new()),
            allow_process: false,
            allowed_commands: Some(StringSet::new()),
            default_timeout: Duration::from_secs(10),
            max_timeout: Duration::from_secs(30),
        }
    }

    /// Replaces the path allowlist.
    pub fn with_paths(self, paths: PathAllowlist) -> (r: Self)
        ensures
            r == (SafetyConfig { paths, ..self }),
    {
        SafetyConfig { paths, ..self }
    }

    /// Replaces the host allowlist.
    pub fn with_hosts(self, hosts: HostAllowlist) -> (r: Self)
        ensures
            r == (SafetyConfig { hosts, ..self }),
    {
        SafetyConfig { hosts, ..self }
    }

    /// Allows exactly the environment variables `vars`.
    pub fn with_env_vars(self, vars: &[&str]) -> (r: Self)
        ensures
            r.env_vars matches Some(set) && set@ == vars@.map_values(|s: &str| s@).to_set(),
            r.paths == self.paths,
            r.hosts == self.hosts,
            r.allow_process == self.allow_process,
            r.allowed_commands == self.allowed_commands,
            r.default_timeout == self.default_timeout,
            r.max_timeout == self.max_timeout,
    {
        SafetyConfig { env_vars: Some(StringSet::from_strs(vars)), ..self }
    }

    /// Allows every environment variable.
    pub fn allow_all_env(self) -> (r: Self)
        ensures
            r == (SafetyConfig { env_vars: None, ..self }),
    {
        SafetyConfig { env_vars: None, ..self }
    }

    /// Switches process execution on or off.
    pub fn with_allow_process(self, allow: bool) -> (r: Self)
        ensures
            r == (SafetyConfig { allow_process: allow, ..self }),
    {
        SafetyConfig { allow_process: allow, ..self }
    }

    /// Allows exactly the commands `commands`.
    pub fn with_allowed_commands(self, commands: &[&str]) -> (r: Self)
        ensures
            r.allowed_commands matches Some(set) && set@ == commands@.map_values(
                |s: &str| s@,
            ).to_set(),
            r.paths == self.paths,
            r.hosts == self.hosts,
            r.env_vars == self.env_vars,
            r.allow_process == self.allow_process,
            r.default_timeout == self.default_timeout,
            r.max_timeout == self.max_timeout,
    {
        SafetyConfig { allowed_commands: Some(StringSet::from_strs(commands)), ..self }
    }

    /// Sets the default timeout.
    pub fn with_default_timeout(self, timeout: Duration) -> (r: Self)
        ensures
            r == (SafetyConfig { default_timeout: timeout, ..self }),
    {
        SafetyConfig { default_timeout: timeout, ..self }
    }

    /// Sets the maximum timeout.
    pub fn with_max_timeout(self, timeout: Duration) -> (r: Self)
        ensures
            r == (SafetyConfig { max_timeout: timeout, ..self }),
    {
        SafetyConfig { max_timeout: timeout, ..self }
    }

    /// Whether the environment variable `name` may be used.
    pub fn can_access_env(&self, name: &str) -> (r: bool)
        ensures
            r == self.permits_env(name@),
    {
        is_listed(&self.env_vars, name)
    }

    /// Checks that the environment variable `name` may be used.
    pub fn check_env(&self, name: &str) -> (r: Result<(), Error>)
        ensures
            verdict_of(r) == self.env_verdict(name@),
    {
        if self.can_access_env(name) {
            Ok(())
        } else {
            Err(Error::env_not_allowed(name))
        }
    }

    /// Whether `command` may run.
    pub fn can_execute(&self, command: &str) -> (r: bool)
        ensures
            r == self.permits_command(command@),
    {
        if !self.allow_process {
            return false;
        }
        is_listed(&self.allowed_commands, command)
    }

    /// Checks that `command` may run.
    pub fn check_execute(&self, command: &str) -> (r: Result<(), Error>)
        ensures
            verdict_of(r) == self.command_verdict(command@),
            r is Ok <==> self.permits_command(command@),
    {
        if !self.allow_process {
            return Err(Error::not_permitted("process execution not allowed"));
        }
        if !is_listed(&self.allowed_commands, command) {
            return Err(Error::command_not_allowed(command));
        }
        Ok(())
    }

    /// Checks that `path` may be read.
    pub fn check_read(&self, path: &str) -> (r: Result<(), Error>)
        ensures
            verdict_of(r) == self.paths.read_verdict(path@),
    {
        self.paths.check_read(path)
    }

    /// Checks that `path` may be written.
    pub fn check_write(&self, path: &str) -> (r: Result<(), Error>)
        ensures
            verdict_of(r) == self.paths.write_verdict(path@),
    {
        self.paths.check_write(path)
    }

    /// Checks that `host` may be contacted.
    pub fn check_host(&self, host: &str) -> (r: Result<(), Error>)
        ensures
            verdict_of(r) == self.hosts.verdict(host@),
    {
        self.hosts.check(host)
    }

    /// Clamps a timeout to the maximum. A longer request is shortened, never
    /// refused.
    pub fn clamp_timeout(&self, timeout: Duration) -> (r: Duration)
        ensures
            r == self.clamped(timeout),
    {
        timeout.min(self.max_timeout)
    }

    /// The timeout of an operation that asks for `requested`.
    pub fn resolve_timeout(&self, requested: Option<Duration>) -> (r: Duration)
        ensures
            r == self.resolved(requested),
    {
        match requested {
            None => self.default_timeout,
            Some(t) => self.clamp_timeout(t),
        }
    }
}

impl Default for PathAllowlist {
    fn default() -> (r: Self)
        ensures
            r.read@ == Set::<Seq<char>>::empty(),
            r.write@ == Set::<Seq<char>>::empty(),
            r.deny@ == Set::<Seq<char>>::empty(),
    {
        PathAllowlist::none()
    }
}

impl Default for HostAllowlist {
    fn default() -> (r: Self)
        ensures
            r.allowed@ == Set::<Seq<char>>::empty(),
            r.denied@ == Set::<Seq<char>>::empty(),
    {
        HostAllowlist::none()
    }
}

impl Default for SafetyConfig {
    fn default() -> (r: Self)
        ensures
            r.is_default(),
    {
        SafetyConfig::new()
    }
}

} // verus!
