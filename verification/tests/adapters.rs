use fusabi_stdlib_ext::collections::StringMap;
use fusabi_stdlib_ext::error::HostErrorKind;
use fusabi_stdlib_ext::fs;
use fusabi_stdlib_ext::net::{self, extract_host, http_get, http_post, RequestOptions, Response};
use fusabi_stdlib_ext::process::{exec, spawn, ExecOptions};
use fusabi_stdlib_ext::safety::{HostAllowlist, PathAllowlist, SafetyConfig};
use fusabi_stdlib_ext::time::duration::Duration;
use fusabi_stdlib_ext::value::{dict_get, Value};

fn text(s: &str) -> Value {
    Value::String(s.to_string())
}

fn entry<'a>(v: &'a Value, key: &str) -> Option<&'a Value> {
    dict_get(v.as_map().unwrap(), key)
}

#[test]
fn env_test_get_safety_check() {
    let safety = SafetyConfig::strict();

    let result = fusabi_stdlib_ext::env::get(&safety, &[Value::String("PATH".into())]);
    assert!(result.is_err()); // Should fail - env not allowed
}

#[test]
fn env_test_get_with_permission() {
    let safety = SafetyConfig::new().with_env_vars(&["PATH"]);

    let result = fusabi_stdlib_ext::env::get(&safety, &[Value::String("PATH".into())]);
    assert!(result.is_ok());
}

#[test]
fn env_test_cwd() {
    let result = fusabi_stdlib_ext::env::cwd(Ok("/work".to_string()));
    assert!(result.is_ok());
    assert!(result.unwrap().as_str().is_some());
}

#[test]
fn test_env_safety_check() {
    let safety = SafetyConfig::strict();
    let result = fusabi_stdlib_ext::env::get(&safety, &[Value::String("PATH".into())]);
    assert!(result.is_err());
}

#[test]
fn test_env_with_permission() {
    let safety = SafetyConfig::new().with_env_vars(&["PATH"]);
    let result = fusabi_stdlib_ext::env::get(&safety, &[Value::String("PATH".into())]);
    assert!(result.is_ok());
}

#[test]
fn integration_test_cwd() {
    let result = fusabi_stdlib_ext::env::cwd(Ok("/".to_string()));
    assert!(result.is_ok());
    assert!(result.unwrap().as_str().is_some());
}

#[test]
fn env_requests() {
    let safety = SafetyConfig::new().with_env_vars(&["PATH"]);
    assert_eq!(fusabi_stdlib_ext::env::get(&safety, &[text("PATH")]).unwrap(), "PATH");
    assert_eq!(
        fusabi_stdlib_ext::env::get(&safety, &[]).unwrap_err().message,
        "env.get: missing name argument"
    );
    assert_eq!(
        fusabi_stdlib_ext::env::get(&safety, &[text("HOME")]).unwrap_err().message,
        "environment variable access denied: HOME"
    );
    assert_eq!(
        fusabi_stdlib_ext::env::set(&safety, &[text("PATH"), text("/bin")]).unwrap(),
        ("PATH".to_string(), "/bin".to_string())
    );
    assert_eq!(
        fusabi_stdlib_ext::env::set(&safety, &[]).unwrap_err().message,
        "env.set: missing name argument"
    );
    assert_eq!(
        fusabi_stdlib_ext::env::set(&safety, &[text("HOME")]).unwrap_err().message,
        "env.set: missing value argument"
    );
    // the value is looked at before the policy
    assert_eq!(
        fusabi_stdlib_ext::env::set(&safety, &[text("HOME"), text("x")]).unwrap_err().message,
        "environment variable access denied: HOME"
    );
    assert_eq!(fusabi_stdlib_ext::env::variable(Some("v".to_string())), text("v"));
    assert_eq!(fusabi_stdlib_ext::env::variable(None), Value::Null);
    assert_eq!(fusabi_stdlib_ext::env::cwd(Ok("/w".to_string())).unwrap(), text("/w"));
    let e = fusabi_stdlib_ext::env::cwd(Err("gone".to_string())).unwrap_err();
    assert_eq!(e.kind, HostErrorKind::HostFunction);
    assert_eq!(e.message, "env.cwd: gone");
}

#[test]
fn test_read_safety_check() {
    let safety = SafetyConfig::strict();

    let result = fs::read_file(&safety, &[Value::String("/etc/passwd".into())]);
    assert!(result.is_err()); // Should fail - path not allowed
}

#[test]
fn test_exists_with_permission() {
    let safety = SafetyConfig::new().with_paths(PathAllowlist::none().allow_read("/tmp"));

    let result = fs::path_exists(&safety, &[Value::String("/tmp".into())]);
    assert!(result.is_ok());
    assert_eq!(result.unwrap(), "/tmp");
}

#[test]
fn test_fs_safety_check() {
    let safety = SafetyConfig::strict();
    let result = fs::read_file(&safety, &[Value::String("/etc/passwd".into())]);
    assert!(result.is_err());
}

#[test]
fn fs_requests() {
    let safety = SafetyConfig::new()
        .with_paths(PathAllowlist::none().allow_read("/r").allow_rw("/rw").deny("/rw/no"));
    assert_eq!(fs::read_file(&safety, &[text("/r/f")]).unwrap(), "/r/f");
    assert_eq!(fs::read_file(&safety, &[]).unwrap_err().message, "fs.read: missing path argument");
    assert_eq!(
        fs::read_file(&safety, &[Value::Int(1)]).unwrap_err().message,
        "fs.read: missing path argument"
    );
    assert_eq!(
        fs::read_file(&safety, &[text("/etc/passwd")]).unwrap_err().message,
        "path not allowed: /etc/passwd"
    );
    assert_eq!(
        fs::write_file(&safety, &[text("/rw/f"), text("data")]).unwrap(),
        ("/rw/f".to_string(), "data".to_string())
    );
    assert_eq!(
        fs::write_file(&safety, &[text("/r/f"), text("data")]).unwrap_err().message,
        "path not allowed: /r/f"
    );
    assert_eq!(
        fs::write_file(&safety, &[text("/rw/f")]).unwrap_err().message,
        "fs.write: missing content argument"
    );
    assert_eq!(
        fs::write_file(&safety, &[]).unwrap_err().message,
        "fs.write: missing path argument"
    );
    assert_eq!(fs::path_exists(&safety, &[text("/rw/x")]).unwrap(), "/rw/x");
    assert_eq!(
        fs::path_exists(&safety, &[]).unwrap_err().message,
        "fs.exists: missing path argument"
    );
    assert_eq!(fs::list_dir(&safety, &[text("/r")]).unwrap(), "/r");
    assert_eq!(fs::list_dir(&safety, &[]).unwrap_err().message, "fs.list: missing path argument");
    assert!(fs::list_dir(&safety, &[text("/rw/no")]).is_err());
    assert_eq!(fs::mkdir(&safety, &[text("/rw/d")]).unwrap(), "/rw/d");
    assert!(fs::mkdir(&safety, &[text("/r/d")]).is_err());
    assert_eq!(fs::mkdir(&safety, &[]).unwrap_err().message, "fs.mkdir: missing path argument");
    assert_eq!(fs::remove(&safety, &[text("/rw/d")]).unwrap(), "/rw/d");
    assert!(fs::remove(&safety, &[text("/rw/no/d")]).is_err());
    assert_eq!(fs::remove(&safety, &[]).unwrap_err().message, "fs.remove: missing path argument");
    assert_eq!(fs::failure("fs.read", "No such file").message, "fs.read: No such file");
    assert_eq!(
        fs::listing(&vec!["a".to_string(), "b".to_string()]),
        Value::List(vec![text("a"), text("b")])
    );
}

#[test]
fn test_exec_safety_check() {
    let safety = SafetyConfig::strict();

    let result = exec(&safety, None, &[Value::String("ls".into())]);
    assert!(result.is_err()); // Should fail - process not allowed
}

#[test]
fn test_exec_with_permission() {
    let safety = SafetyConfig::new().with_allow_process(true).with_allowed_commands(&["ls"]);

    let result = exec(&safety, None, &[Value::String("ls".into())]);
    assert!(result.is_ok());
}

#[test]
fn test_exec_command_not_allowed() {
    let safety = SafetyConfig::new().with_allow_process(true).with_allowed_commands(&["ls"]);

    let result = exec(&safety, None, &[Value::String("rm".into())]);
    assert!(result.is_err()); // rm not in allowed list
}

#[test]
fn test_process_safety_check() {
    let safety = SafetyConfig::strict();
    let result = exec(&safety, None, &[Value::String("ls".into())]);
    assert!(result.is_err());
}

#[test]
fn process_results() {
    let safety = SafetyConfig::permissive();
    let result = exec(
        &safety,
        Some(Duration::from_secs(5)),
        &[text("echo"), text("a"), Value::Int(1), text("b c")],
    )
    .unwrap();
    assert_eq!(entry(&result, "stdout"), Some(&text("Executed: echo a b c")));
    assert_eq!(entry(&result, "stderr"), Some(&text("")));
    assert_eq!(entry(&result, "exit_code"), Some(&Value::Int(0)));
    let result = exec(&safety, None, &[text("ls")]).unwrap();
    assert_eq!(entry(&result, "stdout"), Some(&text("Executed: ls ")));
    assert_eq!(
        exec(&safety, None, &[]).unwrap_err().message,
        "exec: missing command argument"
    );
    assert_eq!(
        exec(&SafetyConfig::new(), None, &[text("ls")]).unwrap_err().message,
        "operation not permitted: process execution not allowed"
    );
    let listed = SafetyConfig::new().with_allow_process(true).with_allowed_commands(&["ls"]);
    assert_eq!(
        exec(&listed, None, &[text("rm")]).unwrap_err().message,
        "command not allowed: rm"
    );
    let result = spawn(&[text("server")]).unwrap();
    assert_eq!(entry(&result, "pid"), Some(&Value::Int(12345)));
    assert_eq!(entry(&result, "command"), Some(&text("server")));
    assert_eq!(spawn(&[]).unwrap_err().message, "spawn: missing command argument");
    let options = ExecOptions::default();
    assert_eq!(options.cwd, None);
    assert_eq!(options.env.len(), 0);
    assert_eq!(options.timeout, Some(Duration::from_secs(30)));
    assert!(options.capture_stdout);
    assert!(options.capture_stderr);
}

#[test]
fn test_extract_host() {
    assert_eq!(extract_host("https://example.com/path").unwrap(), "example.com");
    assert_eq!(extract_host("http://api.test.com:8080/").unwrap(), "api.test.com");
    assert_eq!(extract_host("example.com").unwrap(), "example.com");
}

#[test]
fn net_test_get_safety_check() {
    let safety = SafetyConfig::strict();

    let result = http_get(&safety, None, &[Value::String("https://example.com".into())]);
    assert!(result.is_err()); // Should fail - host not allowed
}

#[test]
fn net_test_get_with_permission() {
    let safety = SafetyConfig::new().with_hosts(HostAllowlist::none().allow("example.com"));

    let result = http_get(&safety, None, &[Value::String("https://example.com/api".into())]);
    assert!(result.is_ok());
}

#[test]
fn test_net_safety_check() {
    let safety = SafetyConfig::strict();
    let result = http_get(&safety, None, &[Value::String("https://evil.com".into())]);
    assert!(result.is_err());
}

#[test]
fn test_net_with_permission() {
    let safety = SafetyConfig::new().with_hosts(HostAllowlist::none().allow("example.com"));
    let result = http_get(&safety, None, &[Value::String("https://example.com/api".into())]);
    assert!(result.is_ok());
}

#[test]
fn test_request_options() {
    let opts = RequestOptions::new()
        .with_header("Content-Type", "application/json")
        .with_timeout(Duration::from_secs(10))
        .with_follow_redirects(false);

    assert_eq!(opts.headers.get("Content-Type"), Some(&"application/json".to_string()));
    assert_eq!(opts.timeout, Some(Duration::from_secs(10)));
    assert!(!opts.follow_redirects);
}

#[test]
fn test_response() {
    let response = Response { status: 200, headers: StringMap::new(), body: "OK".into() };

    assert!(response.is_success());

    let value = response.to_value();
    let map = value.as_map().unwrap();
    assert_eq!(dict_get(map, "status"), Some(&Value::Int(200)));
}

#[test]
fn hosts_of_urls() {
    let host = |url: &str| extract_host(url).map_err(|e| e.message());
    assert_eq!(host("https://a.b/c:d"), Ok("a.b".to_string()));
    assert_eq!(host("a.b:80"), Ok("a.b".to_string()));
    assert_eq!(host("ftp://a.b/c"), Ok("ftp".to_string()));
    assert_eq!(host("HTTP://a.b"), Ok("HTTP".to_string()));
    assert_eq!(host("https://http://x"), Ok("http".to_string()));
    assert_eq!(host("user@host.org/p"), Ok("user@host.org".to_string()));
    assert_eq!(host(""), Err("invalid argument: invalid URL: no host".to_string()));
    assert_eq!(host("https://"), Err("invalid argument: invalid URL: no host".to_string()));
    assert_eq!(host("/path"), Err("invalid argument: invalid URL: no host".to_string()));
    assert_eq!(host("http://:80/"), Err("invalid argument: invalid URL: no host".to_string()));
}

#[test]
fn net_results() {
    let safety = SafetyConfig::new().with_hosts(HostAllowlist::none().allow("*.example.com"));
    let result = http_get(&safety, None, &[text("https://API.example.com:443/v1")]).unwrap();
    assert_eq!(entry(&result, "status"), Some(&Value::Int(200)));
    assert_eq!(
        entry(&result, "body"),
        Some(&text("Response from https://API.example.com:443/v1"))
    );
    assert_eq!(entry(&result, "headers"), Some(&Value::Dict(vec![])));
    let result = http_post(&safety, None, &[text("http://example.com"), text("body")]).unwrap();
    assert_eq!(entry(&result, "body"), Some(&text("OK")));
    assert_eq!(http_get(&safety, None, &[]).unwrap_err().message, "net.get: missing URL argument");
    assert_eq!(
        http_post(&safety, None, &[Value::Int(1)]).unwrap_err().message,
        "net.post: missing URL argument"
    );
    // a URL without a host is refused before the policy is asked
    assert_eq!(
        http_get(&SafetyConfig::permissive(), None, &[text("https:///x")]).unwrap_err().message,
        "invalid argument: invalid URL: no host"
    );
    assert_eq!(
        extract_host("https:///x").unwrap_err().error_kind(),
        fusabi_stdlib_ext::error::ErrorKind::InvalidArgument
    );
    assert_eq!(
        http_get(&safety, None, &[text("https://evil.org/")]).unwrap_err().message,
        "host not allowed: evil.org"
    );
    assert_eq!(
        http_post(&safety, None, &[text("https://evil.org/")]).unwrap_err().message,
        "host not allowed: evil.org"
    );
    assert_eq!(
        net::effective_timeout(&safety, Some(Duration::from_secs(1000))),
        Duration::from_secs(300)
    );
    assert_eq!(net::effective_timeout(&safety, None), Duration::from_secs(30));
}

#[test]
fn responses_and_options() {
    let cases =
        [(199, false), (200, true), (204, true), (299, true), (300, false), (404, false)];
    for (status, ok) in cases {
        let r = Response { status, headers: StringMap::new(), body: String::new() };
        assert_eq!(r.is_success(), ok);
    }
    let r = Response {
        status: 404,
        headers: StringMap::new().insert("a".to_string(), "1".to_string()),
        body: "nope".to_string(),
    };
    assert_eq!(
        r.to_value(),
        Value::Dict(vec![
            ("status".to_string(), Value::Int(404)),
            ("body".to_string(), text("nope")),
            ("headers".to_string(), Value::Dict(vec![("a".to_string(), text("1"))])),
        ])
    );
    let options = RequestOptions::new();
    assert_eq!(options.timeout, Some(Duration::from_secs(30)));
    assert!(options.follow_redirects);
    assert_eq!(options.max_redirects, 10);
    let options = RequestOptions::default();
    assert_eq!(options.timeout, None);
    assert!(!options.follow_redirects);
    assert_eq!(options.max_redirects, 0);
}
