use fusabi_stdlib_ext::containment::{components_of, path_starts_with};
use fusabi_stdlib_ext::error::{Error, ErrorKind};
use fusabi_stdlib_ext::safety::{HostAllowlist, PathAllowlist, SafetyConfig};
use fusabi_stdlib_ext::time::duration::Duration;

fn kind_and_detail(r: Result<(), Error>) -> Option<(ErrorKind, String)> {
    match r {
        Ok(()) => None,
        Err(e) => {
            let kind = e.error_kind();
            let message = e.message();
            Some((kind, message))
        }
    }
}

#[test]
fn empty_allow_sets_refuse_every_path() {
    let paths = PathAllowlist::none();
    for p in ["/", "/etc/passwd", "relative", "", ".", "/tmp/x", "a/../b"] {
        assert_eq!(
            kind_and_detail(paths.check_read(p)),
            Some((ErrorKind::PathNotAllowed, format!("path not allowed: {}", p)))
        );
        assert_eq!(
            kind_and_detail(paths.check_write(p)),
            Some((ErrorKind::PathNotAllowed, format!("path not allowed: {}", p)))
        );
    }
    // denying something does not allow anything
    let paths = PathAllowlist::none().deny("/secret");
    assert!(paths.check_read("/tmp/x").is_err());
}

#[test]
fn allow_read_tmp() {
    let paths = PathAllowlist::none().allow_read("/tmp");
    assert!(paths.check_read("/tmp/x").is_ok());
    assert!(paths.check_read("/tmp").is_ok());
    assert!(paths.check_read("/etc/passwd").is_err());
    // reading is not writing
    assert!(paths.check_write("/tmp/x").is_err());
    // whole components only
    assert!(paths.check_read("/tmpfile").is_err());
    assert!(paths.check_read("/tmp2/x").is_err());
}

#[test]
fn deny_overrides_allow() {
    let paths = PathAllowlist::none().allow_read("/data").deny("/data/secret");
    assert!(paths.check_read("/data/public").is_ok());
    assert!(paths.check_read("/data/secret/key").is_err());
    assert!(paths.check_read("/data/secret").is_err());
    assert!(paths.is_denied("/data/secret/key"));
    assert!(!paths.is_denied("/data/secrets"));

    // the order of the calls does not matter
    let paths = PathAllowlist::none().deny("/data/secret").allow_rw("/data");
    assert!(paths.check_read("/data/secret/key").is_err());
    assert!(paths.check_write("/data/secret/key").is_err());
    assert!(paths.check_write("/data/other").is_ok());

    // a denied prefix above an allowed one denies all of it
    let paths = PathAllowlist::none().allow_rw("/data/sub").deny("/data");
    assert!(paths.check_read("/data/sub/file").is_err());
}

#[test]
fn relative_paths_never_match_absolute_prefixes() {
    let paths = PathAllowlist::all();
    assert!(paths.check_read("/etc/passwd").is_ok());
    assert!(paths.check_write("/root/.ssh/id_rsa").is_ok());
    assert!(paths.check_read("etc/passwd").is_err());
    assert!(paths.check_read("./etc/passwd").is_err());
    assert!(paths.check_read("").is_err());

    let paths = PathAllowlist::none().allow_read("data");
    assert!(paths.check_read("data/file").is_ok());
    assert!(paths.check_read("/data/file").is_err());
    assert!(paths.check_read("./data/file").is_err());
}

#[test]
fn containment_is_lexical() {
    // nothing is resolved: `..` is a component like any other
    let paths = PathAllowlist::none().allow_read("/tmp");
    assert!(paths.can_read("/tmp/../etc/passwd"));
    // repeated and trailing slashes and `.` do not count
    assert!(paths.can_read("/tmp//x/"));
    assert!(paths.can_read("/tmp/./x"));
    assert!(path_starts_with("/a/b", "/a/"));
    assert!(path_starts_with("/a/b", "//a"));
    assert!(!path_starts_with("/a", "/a/b"));
    assert!(path_starts_with("anything", ""));
    assert!(path_starts_with("./a", "."));
    assert!(!path_starts_with("a", "."));
}

#[test]
fn components_follow_the_standard_library() {
    let samples = [
        "", "/", "//", ".", "./", "..", "../", "a", "a/", "/a", "a/b", "/a/b", "/a//b", "/a/./b",
        "/a/b/.", "/a/b/", "./a/b", "a/./b", "a/../b", "/..", "/.", "./.", ".a", "a.", "/.a/b",
        "/tmp", "/tmp/x", "/tmpfile", "/home/user/data/secret/key", "tmp/x", "/a/b/c/../d",
        ".//a", "a//", "...", "/ a / b", "/é/ü", "/data", "/data/secret", "x/./", "./x/.",
    ];
    for path in samples {
        let expected: Vec<String> = std::path::Path::new(path)
            .components()
            .map(|c| c.as_os_str().to_string_lossy().into_owned())
            .collect();
        let found: Vec<String> =
            components_of(path).into_iter().map(|c| c.into_iter().collect()).collect();
        assert_eq!(found, expected, "components of {:?}", path);
        for base in samples {
            assert_eq!(
                path_starts_with(path, base),
                std::path::Path::new(path).starts_with(base),
                "{:?} under {:?}",
                path,
                base
            );
        }
    }
}

#[test]
fn host_wildcards() {
    let hosts = HostAllowlist::none().allow("*.trusted.org").deny("evil.trusted.org");
    assert!(hosts.check("sub.trusted.org").is_ok());
    assert!(hosts.check("trusted.org").is_ok());
    assert!(hosts.check("evil.trusted.org").is_err());
    assert!(hosts.check("other.com").is_err());
    // the suffix must follow a dot
    assert!(hosts.check("nottrusted.org").is_err());
    assert!(hosts.check("a.b.trusted.org").is_ok());
    assert_eq!(
        kind_and_detail(hosts.check("Evil.Trusted.Org")),
        Some((ErrorKind::HostNotAllowed, "host not allowed: Evil.Trusted.Org".to_string()))
    );
}

#[test]
fn host_matching_ignores_case() {
    let hosts = HostAllowlist::none().allow("API.Example.COM").deny("*.BAD.org");
    assert!(hosts.can_access("api.example.com"));
    assert!(hosts.can_access("Api.Example.Com"));
    assert!(!hosts.can_access("x.bad.ORG"));
    assert!(!hosts.can_access("bad.org"));
    // a pattern is compared in lower case, a host given to `host_matches` as it is
    assert!(HostAllowlist::host_matches("api.example.com", "API.example.com"));
    assert!(!HostAllowlist::host_matches("API.example.com", "api.example.com"));
    assert!(HostAllowlist::host_matches("anything", "*"));
    assert!(HostAllowlist::host_matches("", "*"));
    assert!(HostAllowlist::host_matches("a.example.com", "*.EXAMPLE.com"));
    assert!(HostAllowlist::host_matches("example.com", "*.example.com"));
    assert!(!HostAllowlist::host_matches("example.com.evil", "*.example.com"));
    assert!(!HostAllowlist::host_matches("*", "x"));
}

#[test]
fn host_deny_wins_over_the_wildcard() {
    let hosts = HostAllowlist::all().deny("evil.com");
    assert!(hosts.can_access("good.com"));
    assert!(!hosts.can_access("evil.com"));
    assert!(!hosts.can_access("EVIL.com"));
    let hosts = HostAllowlist::none().allow("evil.com").deny("*");
    assert!(!hosts.can_access("evil.com"));
}

#[test]
fn clamping_is_idempotent_and_monotonic() {
    let config = SafetyConfig::new().with_max_timeout(Duration::from_secs(60));
    assert_eq!(config.clamp_timeout(Duration::from_secs(120)), Duration::from_secs(60));
    assert_eq!(config.clamp_timeout(Duration::from_secs(30)), Duration::from_secs(30));
    assert_eq!(config.clamp_timeout(Duration::from_secs(60)), Duration::from_secs(60));
    let spans = [
        Duration::from_secs(0),
        Duration::from_millis(1),
        Duration::from_secs(59),
        Duration::from_millis(59_999),
        Duration::from_secs(60),
        Duration::from_millis(60_001),
        Duration::from_secs(3600),
        Duration::from_secs(u64::MAX),
    ];
    for (i, x) in spans.iter().enumerate() {
        let once = config.clamp_timeout(*x);
        assert_eq!(config.clamp_timeout(once), once);
        assert!(once.at_most(&Duration::from_secs(60)));
        assert!(once.at_most(x));
        for y in &spans[i..] {
            assert!(once.at_most(&config.clamp_timeout(*y)));
        }
    }
}

#[test]
fn timeouts_are_resolved() {
    let config = SafetyConfig::new()
        .with_default_timeout(Duration::from_secs(7))
        .with_max_timeout(Duration::from_secs(60));
    assert_eq!(config.resolve_timeout(None), Duration::from_secs(7));
    assert_eq!(config.resolve_timeout(Some(Duration::from_secs(30))), Duration::from_secs(30));
    assert_eq!(config.resolve_timeout(Some(Duration::from_secs(90))), Duration::from_secs(60));
    // the default is not clamped
    let config = config.with_default_timeout(Duration::from_secs(600));
    assert_eq!(config.resolve_timeout(None), Duration::from_secs(600));
}

#[test]
fn process_switch_comes_before_the_allowlist() {
    let config = SafetyConfig::new().with_allow_process(false).with_allowed_commands(&["ls"]);
    assert_eq!(
        kind_and_detail(config.check_execute("ls")),
        Some((
            ErrorKind::NotPermitted,
            "operation not permitted: process execution not allowed".to_string()
        ))
    );
    assert_eq!(
        kind_and_detail(config.check_execute("rm")),
        Some((
            ErrorKind::NotPermitted,
            "operation not permitted: process execution not allowed".to_string()
        ))
    );
    assert!(!config.can_execute("ls"));

    let config = config.with_allow_process(true);
    assert!(config.check_execute("ls").is_ok());
    assert_eq!(
        kind_and_detail(config.check_execute("rm")),
        Some((ErrorKind::CommandNotAllowed, "command not allowed: rm".to_string()))
    );
}

#[test]
fn empty_command_allowlist_allows_nothing() {
    let none: [&str; 0] = [];
    let config = SafetyConfig::new().with_allow_process(true).with_allowed_commands(&none);
    assert!(config.check_execute("ls").is_err());
    // no allowlist at all allows every command
    let config = SafetyConfig::new().with_allow_process(true);
    assert!(config.check_execute("ls").is_ok());
    assert!(config.check_execute("").is_ok());
}

#[test]
fn environment_allowlist() {
    let config = SafetyConfig::new();
    assert_eq!(
        kind_and_detail(config.check_env("PATH")),
        Some((
            ErrorKind::EnvNotAllowed,
            "environment variable access denied: PATH".to_string()
        ))
    );
    let config = config.with_env_vars(&["PATH", "HOME", "PATH"]);
    assert!(config.check_env("PATH").is_ok());
    assert!(config.check_env("HOME").is_ok());
    // names are compared as they are
    assert!(config.check_env("path").is_err());
    assert!(config.check_env("").is_err());
    let config = config.allow_all_env();
    assert!(config.check_env("ANYTHING").is_ok());
    assert!(config.can_access_env(""));
}

#[test]
fn strict_refuses_everything() {
    let config = SafetyConfig::strict();
    for x in ["/", "/tmp", "a", "localhost", "ls", "PATH", "*", "x y"] {
        assert!(config.check_read(x).is_err());
        assert!(config.check_write(x).is_err());
        assert!(config.check_host(x).is_err());
        assert!(config.check_env(x).is_err());
        assert!(config.check_execute(x).is_err());
    }
    assert_eq!(config.default_timeout, Duration::from_secs(10));
    assert_eq!(config.max_timeout, Duration::from_secs(30));
    // even with process execution on, the empty allowlist refuses
    let config = config.with_allow_process(true);
    assert_eq!(
        kind_and_detail(config.check_execute("ls")),
        Some((ErrorKind::CommandNotAllowed, "command not allowed: ls".to_string()))
    );
}

#[test]
fn permissive_permits_everything_absolute() {
    let config = SafetyConfig::permissive();
    for x in ["/", "/tmp", "/etc/passwd"] {
        assert!(config.check_read(x).is_ok());
        assert!(config.check_write(x).is_ok());
    }
    for x in ["localhost", "Example.COM", "ls", "PATH", ""] {
        assert!(config.check_host(x).is_ok());
        assert!(config.check_env(x).is_ok());
        assert!(config.check_execute(x).is_ok());
    }
    assert!(config.check_read("relative/path").is_err());
    assert_eq!(config.default_timeout, Duration::from_secs(60));
    assert_eq!(config.max_timeout, Duration::from_secs(3600));
}

#[test]
fn default_refuses_everything() {
    let config = SafetyConfig::default();
    assert!(config.check_read("/etc/passwd").is_err());
    assert!(config.check_host("example.com").is_err());
    assert!(config.check_env("HOME").is_err());
    assert!(config.check_execute("ls").is_err());
    assert_eq!(config.default_timeout, Duration::from_secs(30));
    assert_eq!(config.max_timeout, Duration::from_secs(300));
    assert!(PathAllowlist::default().check_read("/").is_err());
    assert!(HostAllowlist::default().check("localhost").is_err());
}

#[test]
fn builders_replace_sub_policies() {
    let config = SafetyConfig::new()
        .with_paths(PathAllowlist::none().allow_read("/a"))
        .with_paths(PathAllowlist::none().allow_read("/b"))
        .with_hosts(HostAllowlist::none().allow("x.org"));
    // the last call wins
    assert!(config.check_read("/a/f").is_err());
    assert!(config.check_read("/b/f").is_ok());
    assert!(config.check_host("x.org").is_ok());
    let copy = config.clone();
    assert!(copy.check_read("/b/f").is_ok());
    assert!(copy.check_host("X.ORG").is_ok());
}
