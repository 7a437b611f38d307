use fusabi_stdlib_ext::collections::StringMap;
use fusabi_stdlib_ext::error::HostErrorKind;
use fusabi_stdlib_ext::fs_stream::{self, StreamTable};
use fusabi_stdlib_ext::gpu;
use fusabi_stdlib_ext::k8s::{decode_secret, namespace_names, PodInfo};
use fusabi_stdlib_ext::metrics::{self, Histogram, Lazy, MetricsRegistry};
use fusabi_stdlib_ext::net_http;
use fusabi_stdlib_ext::observability::{
    generate_id, LogEntry, LogLevel, ObservabilityConfig, SpanContext,
};
use fusabi_stdlib_ext::path;
use fusabi_stdlib_ext::safety::SafetyConfig;
use fusabi_stdlib_ext::sigilforge;
use fusabi_stdlib_ext::terminal;
use fusabi_stdlib_ext::terminal_ui::{
    is_quit_key, value_list, value_to_span, Color, KeyCode, KeyEvent, CONTROL,
};
use fusabi_stdlib_ext::time::duration::Duration;
use fusabi_stdlib_ext::value::{dict_get, Float, Value};

fn text(s: &str) -> Value {
    Value::String(s.to_string())
}

fn float(x: f64) -> Value {
    Value::Float(Float { bits: x.to_bits(), text: x.to_string() })
}

fn entry<'a>(v: &'a Value, key: &str) -> Option<&'a Value> {
    dict_get(v.as_map().unwrap(), key)
}

#[test]
fn test_join() {
    let result = path::join(&[
        Value::String("/home".into()),
        Value::String("user".into()),
        Value::String("file.txt".into()),
    ])
    .unwrap();

    let path = result.as_str().unwrap();
    assert!(path.contains("home"));
    assert!(path.contains("user"));
    assert!(path.contains("file.txt"));
}

#[test]
fn test_dirname() {
    let result = path::dirname(&[Value::String("/home/user/file.txt".into())]).unwrap();
    assert_eq!(result.as_str().unwrap(), "/home/user");
}

#[test]
fn test_basename() {
    let result = path::basename(&[Value::String("/home/user/file.txt".into())]).unwrap();
    assert_eq!(result.as_str().unwrap(), "file.txt");
}

#[test]
fn test_extension() {
    let result = path::extension(&[Value::String("/home/user/file.txt".into())]).unwrap();
    assert_eq!(result.as_str().unwrap(), "txt");
}

#[test]
fn test_is_absolute() {
    let result = path::is_absolute(&[Value::String("/absolute/path".into())]).unwrap();
    assert_eq!(result.as_bool().unwrap(), true);

    let result = path::is_absolute(&[Value::String("relative/path".into())]).unwrap();
    assert_eq!(result.as_bool().unwrap(), false);
}

#[test]
fn test_path_join() {
    let result = path::join(&[
        Value::String("/home".into()),
        Value::String("user".into()),
        Value::String("documents".into()),
    ]);
    assert!(result.is_ok());
    assert_eq!(result.unwrap().as_str(), Some("/home/user/documents"));
}

#[test]
fn test_path_dirname() {
    let result = path::dirname(&[Value::String("/home/user/file.txt".into())]);
    assert!(result.is_ok());
    assert_eq!(result.unwrap().as_str(), Some("/home/user"));
}

#[test]
fn test_path_basename() {
    let result = path::basename(&[Value::String("/home/user/file.txt".into())]);
    assert!(result.is_ok());
    assert_eq!(result.unwrap().as_str(), Some("file.txt"));
}

#[test]
fn test_path_extension() {
    let result = path::extension(&[Value::String("/home/user/file.txt".into())]);
    assert!(result.is_ok());
    assert_eq!(result.unwrap().as_str(), Some("txt"));
}

#[test]
fn path_functions() {
    // an absolute part takes the place of what came before
    assert_eq!(path::join(&[text("a"), text("/b"), text("c")]).unwrap(), text("/b/c"));
    assert_eq!(path::join(&[text("a/"), text("b")]).unwrap(), text("a/b"));
    assert_eq!(path::join(&[]).unwrap_err().message, "path.join: no arguments");
    assert_eq!(
        path::join(&[text("a"), Value::Int(1)]).unwrap_err().message,
        "path.join: argument must be string"
    );
    assert_eq!(path::dirname(&[text("/")]).unwrap(), Value::Null);
    assert_eq!(path::dirname(&[text("a")]).unwrap(), text(""));
    assert_eq!(path::basename(&[text("/a/..")]).unwrap(), Value::Null);
    assert_eq!(path::extension(&[text("/a/b")]).unwrap(), Value::Null);
    assert_eq!(path::extension(&[text("a.tar.gz")]).unwrap(), text("gz"));
    assert_eq!(path::normalize(&[text("/a//b/./c/")]).unwrap(), text("/a/b/c"));
    assert_eq!(path::normalize(&[text("a/../b")]).unwrap(), text("a/../b"));
    assert_eq!(path::is_absolute(&[text("")]).unwrap(), Value::Bool(false));
    for (f, name) in [
        (path::dirname as fn(&[Value]) -> _, "dirname"),
        (path::basename, "basename"),
        (path::extension, "extension"),
        (path::normalize, "normalize"),
        (path::is_absolute, "is_absolute"),
    ] {
        let e = f(&[]).unwrap_err();
        assert_eq!(e.kind, HostErrorKind::HostFunction);
        assert_eq!(e.message, format!("path.{}: missing path argument", name));
    }
}

#[test]
fn test_counter_inc() {
    let mut registry = MetricsRegistry::new();

    metrics::counter_inc(&mut registry, &[Value::String("test_counter".into())]).unwrap();
    metrics::counter_inc(&mut registry, &[Value::String("test_counter".into()), Value::Int(5)])
        .unwrap();

    let value = registry.counter_get("test_counter");
    assert!(value >= 6); // At least 1 + 5
}

#[test]
fn test_gauge_set() {
    let mut registry = MetricsRegistry::new();

    metrics::gauge_set(&mut registry, &[Value::String("test_gauge".into()), float(42.5)]).unwrap();

    let value = f64::from_bits(registry.gauge_get("test_gauge"));
    assert!((value - 42.5).abs() < 0.001);
}

#[test]
fn metrics_test_histogram() {
    let mut registry = MetricsRegistry::new();

    for i in 1..=10 {
        metrics::histogram_observe(
            &mut registry,
            &[Value::String("test_histogram".into()), float(i as f64)],
        )
        .unwrap();
    }

    let values = registry.histogram_values("test_histogram").unwrap();
    let count = registry.histogram_count("test_histogram").unwrap();
    let sum: f64 = values.iter().map(|bits| f64::from_bits(*bits)).sum();
    let mean = sum / count as f64;
    assert_eq!(count, 10);
    assert!((sum - 55.0).abs() < 0.001);
    assert!((mean - 5.5).abs() < 0.001);
}

#[test]
fn test_metrics_registry() {
    let mut registry = MetricsRegistry::new();

    registry.counter_inc("counter1", 1);
    registry.counter_inc("counter1", 2);
    assert_eq!(registry.counter_get("counter1"), 3);

    registry.gauge_set("gauge1", 100.0f64.to_bits());
    assert!((f64::from_bits(registry.gauge_get("gauge1")) - 100.0).abs() < 0.001);

    registry.histogram_observe("hist1", 1.0f64.to_bits());
    registry.histogram_observe("hist1", 2.0f64.to_bits());
    registry.histogram_observe("hist1", 3.0f64.to_bits());

    assert_eq!(registry.histogram_count("hist1"), Some(3));
}

#[test]
fn test_counter() {
    let mut registry = MetricsRegistry::new();
    let result = metrics::counter_inc(
        &mut registry,
        &[Value::String("test_counter_integration".into())],
    );
    assert!(result.is_ok());

    let result = metrics::counter_inc(
        &mut registry,
        &[Value::String("test_counter_integration".into()), Value::Int(5)],
    );
    assert!(result.is_ok());
}

#[test]
fn test_gauge() {
    let mut registry = MetricsRegistry::new();
    let result = metrics::gauge_set(
        &mut registry,
        &[Value::String("test_gauge_integration".into()), float(42.5)],
    );
    assert!(result.is_ok());
}

#[test]
fn integration_test_histogram() {
    let mut registry = MetricsRegistry::new();
    for i in 1..=10 {
        let result = metrics::histogram_observe(
            &mut registry,
            &[Value::String("test_histogram_integration".into()), float(i as f64 * 0.1)],
        );
        assert!(result.is_ok());
    }
}

#[test]
fn metrics_registry_in_detail() {
    let mut registry = MetricsRegistry::default();
    assert_eq!(registry.counter_get("none"), 0);
    assert_eq!(registry.gauge_get("none"), 0);
    assert_eq!(registry.histogram_count("none"), None);
    assert!(registry.histogram_values("none").is_none());
    registry.counter_inc("c", u64::MAX);
    registry.counter_inc("c", 2);
    assert_eq!(registry.counter_get("c"), 1);
    registry.counter_inc("d", 7);
    assert_eq!(registry.counter_get("c"), 1);
    assert_eq!(registry.counter_get("d"), 7);
    registry.gauge_set("g", 1);
    registry.gauge_set("g", 2);
    registry.gauge_set("h", 3);
    assert_eq!(registry.gauge_get("g"), 2);
    assert_eq!(registry.gauge_get("h"), 3);
    registry.histogram_observe("x", 5);
    registry.histogram_observe("y", 6);
    registry.histogram_observe("x", 7);
    assert_eq!(registry.histogram_values("x"), Some(&vec![5, 7]));
    assert_eq!(registry.histogram_values("y"), Some(&vec![6]));
    assert_eq!(registry.names(), vec!["c", "d", "g", "h", "x", "y"]);
    registry.clear();
    assert!(registry.names().is_empty());
    assert_eq!(registry.counter_get("c"), 0);

    let mut h = Histogram::new();
    assert_eq!(h.count(), 0);
    h.observe(9);
    assert_eq!(h.values(), &vec![9]);
    assert_eq!(Histogram::default().count(), 0);

    let lazy = Lazy::new(|| 5);
    assert_eq!(lazy.get(), None);
    let lazy = lazy.force();
    assert_eq!(lazy.get(), Some(&5));
    let lazy = lazy.force();
    assert_eq!(lazy.get(), Some(&5));
}

#[test]
fn metric_functions() {
    let mut registry = MetricsRegistry::new();
    assert_eq!(
        metrics::counter_inc(&mut registry, &[text("c"), Value::Int(-1)]).unwrap(),
        Value::Null
    );
    assert_eq!(registry.counter_get("c"), u64::MAX);
    metrics::counter_inc(&mut registry, &[text("c"), text("no number")]).unwrap();
    assert_eq!(registry.counter_get("c"), 0);
    assert_eq!(
        metrics::counter_inc(&mut registry, &[]).unwrap_err().message,
        "metrics.counter_inc: missing name"
    );
    // an integer is stored as the nearest floating-point number
    metrics::gauge_set(&mut registry, &[text("g"), Value::Int(3)]).unwrap();
    assert_eq!(registry.gauge_get("g"), 3.0f64.to_bits());
    metrics::gauge_set(&mut registry, &[text("g"), float(-0.5)]).unwrap();
    assert_eq!(registry.gauge_get("g"), (-0.5f64).to_bits());
    assert_eq!(
        metrics::gauge_set(&mut registry, &[Value::Int(1)]).unwrap_err().message,
        "metrics.gauge_set: missing name"
    );
    assert_eq!(
        metrics::gauge_set(&mut registry, &[text("g")]).unwrap_err().message,
        "metrics.gauge_set: missing value"
    );
    assert_eq!(
        metrics::gauge_set(&mut registry, &[text("g"), text("1")]).unwrap_err().message,
        "metrics.gauge_set: missing value"
    );
    metrics::histogram_observe(&mut registry, &[text("h"), Value::Int(i64::MAX)]).unwrap();
    assert_eq!(registry.histogram_values("h"), Some(&vec![(i64::MAX as f64).to_bits()]));
    assert_eq!(
        metrics::histogram_observe(&mut registry, &[]).unwrap_err().message,
        "metrics.histogram_observe: missing name"
    );
    assert_eq!(
        metrics::histogram_observe(&mut registry, &[text("h"), Value::Null]).unwrap_err().message,
        "metrics.histogram_observe: missing value"
    );
}

#[test]
fn test_config_builder() {
    let config = ObservabilityConfig::new("test-service")
        .with_version("1.0.0")
        .with_attribute("env", "test")
        .with_tracing(true)
        .with_metrics(false);

    assert_eq!(config.service_name, "test-service");
    assert_eq!(config.service_version, "1.0.0");
    assert!(config.tracing_enabled);
    assert!(!config.metrics_enabled);
}

#[test]
fn test_span_context() {
    let span = SpanContext::new("test-span", 1_700_000_000_000_000_000, 1, 2)
        .with_attribute("key", Value::String("value".into()));

    assert_eq!(span.name, "test-span");
    assert!(!span.trace_id.is_empty());
    assert!(!span.span_id.is_empty());
}

#[test]
fn test_log_entry() {
    let entry = LogEntry::new(LogLevel::Info, "test message", 1_700_000_000_000_000_000)
        .with_field("count", Value::Int(42));

    assert_eq!(entry.level, LogLevel::Info);
    assert_eq!(entry.message, "test message");
}

#[test]
fn test_generate_id() {
    let id = generate_id(8, 1_700_000_000_000_000_000);
    assert_eq!(id.len(), 16); // 8 bytes = 16 hex chars
}

#[test]
fn identifiers_follow_the_generator() {
    let expected = |bytes: usize, seed: u64| -> String {
        let mut result = String::new();
        let mut state = seed;
        for _ in 0..bytes {
            state = state.wrapping_mul(6364136223846793005).wrapping_add(1);
            result.push_str(&format!("{:02x}", (state >> 56) as u8));
        }
        result
    };
    for seed in [0, 1, 42, u64::MAX, 1_700_000_000_123_456_789] {
        for bytes in [0, 1, 8, 16] {
            assert_eq!(generate_id(bytes, seed), expected(bytes, seed));
        }
    }
    assert_eq!(generate_id(0, 7), "");
}

#[test]
fn observability_in_detail() {
    let config = ObservabilityConfig::default();
    assert_eq!(config.service_name, "fusabi-app");
    assert_eq!(config.service_version, "0.1.0");
    assert!(config.tracing_enabled && config.metrics_enabled);
    let config = ObservabilityConfig::new("s").with_attribute("a", "1").with_attribute("a", "2");
    assert_eq!(config.resource_attributes.get("a"), Some(&"2".to_string()));
    assert_eq!(config.resource_attributes.len(), 1);
    assert!(!config.with_tracing(false).tracing_enabled);

    let span = SpanContext::new("s", 100, 5, 6)
        .with_attribute("k", Value::Int(1))
        .with_attribute("l", Value::Int(2))
        .with_attribute("k", Value::Int(3));
    assert_eq!(span.trace_id.len(), 32);
    assert_eq!(span.span_id.len(), 16);
    assert_eq!(span.trace_id, generate_id(16, 5));
    assert_eq!(span.span_id, generate_id(8, 6));
    assert_eq!(
        span.attributes,
        vec![("k".to_string(), Value::Int(3)), ("l".to_string(), Value::Int(2))]
    );
    assert_eq!(span.elapsed(1_000_000_100), Duration::from_secs(1));
    assert_eq!(span.elapsed(50), Duration::from_secs(0));

    let entry = LogEntry::new(LogLevel::Warn, "m", 9).with_field("f", text("x"));
    assert_eq!(entry.timestamp_ns, 9);
    assert_eq!(entry.fields, vec![("f".to_string(), text("x"))]);
    assert_eq!(LogLevel::Trace.as_str(), "TRACE");
    assert_eq!(LogLevel::Debug.as_str(), "DEBUG");
    assert_eq!(LogLevel::Info.as_str(), "INFO");
    assert_eq!(LogLevel::Warn.as_str(), "WARN");
    assert_eq!(LogLevel::Error.as_str(), "ERROR");
}

#[test]
fn test_pod_info_to_value() {
    let info = PodInfo {
        name: "test-pod".to_string(),
        namespace: "default".to_string(),
        phase: "Running".to_string(),
        pod_ip: Some("10.0.0.1".to_string()),
        node_name: Some("node-1".to_string()),
        labels: StringMap::new().insert("app".to_string(), "test".to_string()),
    };

    let value = info.to_value();
    if let Value::Dict(map) = value {
        assert_eq!(dict_get(&map, "name"), Some(&Value::String("test-pod".to_string())));
        assert_eq!(dict_get(&map, "phase"), Some(&Value::String("Running".to_string())));
    } else {
        panic!("Expected Map value");
    }
}

#[test]
fn pods() {
    let pod = PodInfo::from_pod(None, None, None, None, None, StringMap::new());
    assert_eq!(pod.name, "");
    assert_eq!(pod.namespace, "");
    assert_eq!(pod.phase, "Unknown");
    assert_eq!(
        pod.to_value(),
        Value::Dict(vec![
            ("name".to_string(), text("")),
            ("namespace".to_string(), text("")),
            ("phase".to_string(), text("Unknown")),
            ("labels".to_string(), Value::Dict(vec![])),
        ])
    );
    let pod = PodInfo::from_pod(
        Some("p".to_string()),
        Some("ns".to_string()),
        Some("Running".to_string()),
        Some("10.0.0.1".to_string()),
        Some("n1".to_string()),
        StringMap::new().insert("app".to_string(), "x".to_string()),
    );
    assert_eq!(
        pod.to_value(),
        Value::Dict(vec![
            ("name".to_string(), text("p")),
            ("namespace".to_string(), text("ns")),
            ("phase".to_string(), text("Running")),
            ("pod_ip".to_string(), text("10.0.0.1")),
            ("node_name".to_string(), text("n1")),
            ("labels".to_string(), Value::Dict(vec![("app".to_string(), text("x"))])),
        ])
    );
}

#[test]
fn secrets_and_namespaces() {
    let data = vec![
        ("user".to_string(), b"admin".to_vec()),
        ("blob".to_string(), vec![0xff, 0xfe]),
        ("cut".to_string(), vec![0xe2, 0x82]),
        ("name".to_string(), "zoë".as_bytes().to_vec()),
        ("empty".to_string(), vec![]),
    ];
    assert_eq!(
        decode_secret(&data),
        vec![
            ("user".to_string(), "admin".to_string()),
            ("name".to_string(), "zoë".to_string()),
            ("empty".to_string(), "".to_string()),
        ]
    );
    assert_eq!(
        namespace_names(vec![Some("default".to_string()), None, Some("kube-system".to_string())]),
        vec!["default", "kube-system"]
    );
    assert!(namespace_names(vec![]).is_empty());
}

#[test]
fn test_value_to_span() {
    let span = value_to_span(&Value::Int(42));
    assert_eq!(span.content, "42");
}

#[test]
fn shown_values() {
    let shown = |v: Value| {
        let s = value_to_span(&v);
        (s.content, s.color)
    };
    assert_eq!(shown(Value::Null), ("null".to_string(), Color::DarkGray));
    assert_eq!(shown(Value::Bool(true)), ("true".to_string(), Color::Yellow));
    assert_eq!(shown(Value::Bool(false)), ("false".to_string(), Color::Yellow));
    assert_eq!(shown(Value::Int(-4)), ("-4".to_string(), Color::Cyan));
    assert_eq!(shown(float(1.5)), ("1.5".to_string(), Color::Cyan));
    assert_eq!(shown(text("hi")), ("\"hi\"".to_string(), Color::Green));
    assert_eq!(
        shown(Value::List(vec![Value::Null, Value::Null])),
        ("[2 items]".to_string(), Color::Magenta)
    );
    assert_eq!(
        shown(Value::Dict(vec![("a".to_string(), Value::Null)])),
        ("{1 entries}".to_string(), Color::Blue)
    );
    assert_eq!(shown(Value::Bytes(vec![0; 12])), ("<12 bytes>".to_string(), Color::Red));
    assert_eq!(shown(Value::Function(None)), ("<function>".to_string(), Color::Yellow));
    assert_eq!(shown(Value::Error("e".to_string())), ("error: e".to_string(), Color::Red));
    let list = value_list(&[Value::Int(1), text("x")]);
    assert_eq!(list.len(), 2);
    assert_eq!(list[1].content, "\"x\"");
}

#[test]
fn quit_keys() {
    let key = |code, modifiers| KeyEvent { code, modifiers };
    assert!(is_quit_key(&key(KeyCode::Char('q'), 0)));
    assert!(is_quit_key(&key(KeyCode::Char('q'), CONTROL | 1)));
    assert!(is_quit_key(&key(KeyCode::Char('c'), CONTROL)));
    assert!(!is_quit_key(&key(KeyCode::Char('c'), 0)));
    assert!(!is_quit_key(&key(KeyCode::Char('c'), CONTROL | 4)));
    assert!(!is_quit_key(&key(KeyCode::Char('Q'), 0)));
    assert!(!is_quit_key(&key(KeyCode::Other, CONTROL)));
}

#[test]
fn terminal_functions() {
    assert_eq!(
        terminal::colorize(&[text("hi"), text("Red")]).unwrap(),
        text("\x1b[31mhi\x1b[0m")
    );
    for (name, code) in [
        ("red", 31), ("green", 32), ("yellow", 33), ("blue", 34), ("magenta", 35), ("cyan", 36),
        ("WHITE", 37),
    ] {
        assert_eq!(
            terminal::colorize(&[text("x"), text(name)]).unwrap(),
            text(&format!("\x1b[{}mx\x1b[0m", code))
        );
    }
    assert_eq!(
        terminal::colorize(&[text("x"), text("Pink")]).unwrap_err().message,
        "terminal.colorize: unknown color 'Pink'"
    );
    assert_eq!(
        terminal::colorize(&[]).unwrap_err().message,
        "terminal.colorize: missing text argument"
    );
    assert_eq!(
        terminal::colorize(&[text("x")]).unwrap_err().message,
        "terminal.colorize: missing color argument"
    );
    assert_eq!(terminal::size(&[]).unwrap(), Value::List(vec![Value::Int(80), Value::Int(24)]));
    assert_eq!(
        terminal::read_key(&[]).unwrap_err().message,
        "terminal.read_key: not yet implemented"
    );
    assert_eq!(
        terminal::clipboard_read(&[]).unwrap_err().message,
        "terminal.clipboard_read: not yet implemented"
    );
    assert_eq!(
        terminal::clipboard_write(&[]).unwrap_err().message,
        "terminal.clipboard_write: missing text argument"
    );
    assert_eq!(
        terminal::clipboard_write(&[text("x")]).unwrap_err().message,
        "terminal.clipboard_write: not yet implemented"
    );
    assert_eq!(terminal::clear(&[]).unwrap_err().message, "terminal.clear: not yet implemented");
    assert_eq!(
        terminal::set_cursor(&[]).unwrap_err().message,
        "terminal.set_cursor: missing x argument"
    );
    assert_eq!(
        terminal::set_cursor(&[Value::Int(1)]).unwrap_err().message,
        "terminal.set_cursor: missing y argument"
    );
    assert_eq!(
        terminal::set_cursor(&[Value::Int(1), Value::Int(2)]).unwrap_err().message,
        "terminal.set_cursor: not yet implemented"
    );
}

#[test]
fn gpu_readings() {
    let devices = gpu::list_devices(&[]).unwrap();
    let list = devices.as_list().unwrap();
    assert_eq!(list.len(), 1);
    assert_eq!(entry(&list[0], "id"), Some(&Value::Int(0)));
    assert_eq!(entry(&list[0], "name"), Some(&text("Mock GPU")));
    assert_eq!(
        entry(&list[0], "uuid"),
        Some(&text("GPU-00000000-0000-0000-0000-000000000000"))
    );
    assert_eq!(gpu::utilization(&[Value::Int(0)]).unwrap(), float(42.5));
    assert_eq!(gpu::temperature(&[Value::Int(0)]).unwrap(), float(65.0));
    assert_eq!(gpu::power_usage(&[Value::Int(3)]).unwrap(), float(250.0));
    let memory = gpu::memory_info(&[Value::Int(0)]).unwrap();
    assert_eq!(entry(&memory, "total"), Some(&Value::Int(17179869184)));
    assert_eq!(entry(&memory, "used"), Some(&Value::Int(8589934592)));
    assert_eq!(entry(&memory, "free"), Some(&Value::Int(8589934592)));
    let clocks = gpu::clock_speeds(&[Value::Int(0)]).unwrap();
    assert_eq!(entry(&clocks, "graphics"), Some(&Value::Int(1500)));
    assert_eq!(entry(&clocks, "memory"), Some(&Value::Int(7000)));
    assert_eq!(entry(&clocks, "sm"), Some(&Value::Int(1500)));
    for (f, name) in [
        (gpu::utilization as fn(&[Value]) -> _, "utilization"),
        (gpu::memory_info, "memory_info"),
        (gpu::temperature, "temperature"),
        (gpu::power_usage, "power_usage"),
        (gpu::clock_speeds, "clock_speeds"),
    ] {
        assert_eq!(
            f(&[text("0")]).unwrap_err().message,
            format!("gpu.{}: missing device_id argument", name)
        );
    }
}

#[test]
fn streams() {
    let mut table = StreamTable::new();
    let a = fs_stream::tail(&mut table, &[text("/var/log/app.log")]).unwrap();
    let b = fs_stream::open(&mut table, &[text("/data.bin"), Value::Int(10)]).unwrap();
    assert_eq!(a, Value::Int(1));
    assert_eq!(b, Value::Int(2));
    assert_eq!(
        fs_stream::tail(&mut table, &[]).unwrap_err().message,
        "fs_stream.tail: missing path argument"
    );
    assert_eq!(
        fs_stream::open(&mut table, &[Value::Int(1)]).unwrap_err().message,
        "fs_stream.open: missing path argument"
    );
    // every third call gives a line
    assert_eq!(fs_stream::read_line(&mut table, &[Value::Int(1)]).unwrap(), Value::Null);
    assert_eq!(fs_stream::read_line(&mut table, &[Value::Int(1)]).unwrap(), Value::Null);
    assert_eq!(
        fs_stream::read_line(&mut table, &[Value::Int(1)]).unwrap(),
        text("Mock line 3 from /var/log/app.log")
    );
    assert_eq!(fs_stream::read_line(&mut table, &[Value::Int(1)]).unwrap(), Value::Null);
    // five chunks, then the end
    for i in 1..=5 {
        assert_eq!(
            fs_stream::read_chunk(&mut table, &[Value::Int(2)]).unwrap(),
            text(&format!("Mock chunk at position {}", i * 10))
        );
    }
    assert_eq!(fs_stream::read_chunk(&mut table, &[Value::Int(2)]).unwrap(), Value::Null);
    assert_eq!(
        fs_stream::read_available(&table, &[Value::Int(2)]).unwrap(),
        Value::List(vec![])
    );
    assert_eq!(fs_stream::close(&mut table, &[Value::Int(1)]).unwrap(), Value::Null);
    assert_eq!(
        fs_stream::close(&mut table, &[Value::Int(1)]).unwrap_err().message,
        "fs_stream.close: invalid handle"
    );
    assert_eq!(
        fs_stream::read_line(&mut table, &[Value::Int(1)]).unwrap_err().message,
        "fs_stream.read_line: invalid handle"
    );
    assert_eq!(
        fs_stream::read_line(&mut table, &[]).unwrap_err().message,
        "fs_stream.read_line: missing handle argument"
    );
    assert_eq!(
        fs_stream::read_chunk(&mut table, &[Value::Int(9)]).unwrap_err().message,
        "fs_stream.read_chunk: invalid handle"
    );
    assert_eq!(
        fs_stream::read_chunk(&mut table, &[]).unwrap_err().message,
        "fs_stream.read_chunk: missing handle argument"
    );
    assert_eq!(
        fs_stream::read_available(&table, &[Value::Int(1)]).unwrap_err().message,
        "fs_stream.read_available: invalid handle"
    );
    assert_eq!(
        fs_stream::read_available(&table, &[]).unwrap_err().message,
        "fs_stream.read_available: missing handle argument"
    );
    assert_eq!(
        fs_stream::close(&mut table, &[]).unwrap_err().message,
        "fs_stream.close: missing handle argument"
    );
    // handles are not given twice
    assert_eq!(fs_stream::open(&mut table, &[text("x")]).unwrap(), Value::Int(3));
    assert_eq!(fs_stream::read_chunk(&mut table, &[Value::Int(2)]).unwrap(), Value::Null);
}

#[test]
fn http_client() {
    let response = net_http::request(&[text("GET"), text("https://api.example.com/data")]).unwrap();
    assert_eq!(entry(&response, "status"), Some(&Value::Int(200)));
    assert_eq!(
        entry(&response, "body"),
        Some(&text("Response from https://api.example.com/data"))
    );
    assert_eq!(
        entry(&response, "headers"),
        Some(&Value::Dict(vec![("content-type".to_string(), text("application/json"))]))
    );
    assert_eq!(
        net_http::request(&[]).unwrap_err().message,
        "net_http.request: missing method argument"
    );
    assert_eq!(
        net_http::request(&[text("GET")]).unwrap_err().message,
        "net_http.request: missing url argument"
    );
    let settings = net_http::request_settings(&[text("GET"), text("u")]);
    assert_eq!(
        (
            settings.timeout,
            settings.retries,
            settings.retry_delay,
            settings.body,
            settings.header_count
        ),
        (30000, 0, 1000, None, 0)
    );
    let settings = net_http::request_settings(&[
        text("POST"),
        text("u"),
        Value::Dict(vec![("a".to_string(), text("1")), ("b".to_string(), text("2"))]),
        Value::Dict(vec![
            ("timeout".to_string(), Value::Int(5)),
            ("retries".to_string(), text("three")),
            ("retry_delay".to_string(), Value::Int(7)),
            ("body".to_string(), text("payload")),
            ("timeout".to_string(), Value::Int(6)),
        ]),
    ]);
    assert_eq!(
        (
            settings.timeout,
            settings.retries,
            settings.retry_delay,
            settings.body,
            settings.header_count
        ),
        (5, 0, 7, Some("payload".to_string()), 2)
    );
    assert_eq!(net_http::download_stream(&[text("u")]).unwrap(), Value::Int(1001));
    assert_eq!(
        net_http::download_stream(&[]).unwrap_err().message,
        "net_http.download_stream: missing url argument"
    );
    let upload = net_http::upload_stream(&[text("u"), Value::Int(1001)]).unwrap();
    assert_eq!(entry(&upload, "status"), Some(&Value::Int(201)));
    assert_eq!(entry(&upload, "body"), Some(&text("Upload complete")));
    assert_eq!(
        net_http::upload_stream(&[]).unwrap_err().message,
        "net_http.upload_stream: missing url argument"
    );
    assert_eq!(
        net_http::upload_stream(&[text("u")]).unwrap_err().message,
        "net_http.upload_stream: missing stream handle"
    );
    assert_eq!(net_http::read_stream_chunk(&[Value::Int(1)]).unwrap(), text("Mock chunk data"));
    assert_eq!(
        net_http::read_stream_chunk(&[]).unwrap_err().message,
        "net_http.read_stream_chunk: missing handle argument"
    );
    assert_eq!(net_http::close_stream(&[Value::Int(1)]).unwrap(), Value::Null);
    assert_eq!(
        net_http::close_stream(&[]).unwrap_err().message,
        "net_http.close_stream: missing handle argument"
    );
    assert!(net_http::check_request_safety(&SafetyConfig::strict(), "https://evil.org").is_ok());
}

#[test]
fn credentials() {
    assert_eq!(
        sigilforge::get_token(&[text("spotify"), text("personal")]).unwrap(),
        ("spotify".to_string(), "personal".to_string())
    );
    let e = sigilforge::get_token(&[]).unwrap_err();
    assert_eq!(e.kind, HostErrorKind::HostFunction);
    assert_eq!(e.message, "sigilforge.get_token: service must be a string");
    assert_eq!(
        sigilforge::get_token(&[text("s")]).unwrap_err().message,
        "sigilforge.get_token: account must be a string"
    );
    assert_eq!(
        sigilforge::ensure_token(&[Value::Int(1)]).unwrap_err().message,
        "sigilforge.ensure_token: service must be a string"
    );
    assert_eq!(
        sigilforge::ensure_token(&[text("s"), Value::Null]).unwrap_err().message,
        "sigilforge.ensure_token: account must be a string"
    );
    assert_eq!(
        sigilforge::ensure_token(&[text("s"), text("a")]).unwrap(),
        ("s".to_string(), "a".to_string())
    );
    assert_eq!(sigilforge::resolve(&[text("auth://x")]).unwrap(), "auth://x");
    assert_eq!(
        sigilforge::resolve(&[]).unwrap_err().message,
        "sigilforge.resolve: reference must be a string"
    );
    assert_eq!(sigilforge::secret(Ok("t".to_string())).unwrap(), text("t"));
    let e = sigilforge::secret(Err("denied".to_string())).unwrap_err();
    assert_eq!(e.kind, HostErrorKind::Runtime);
    assert_eq!(e.message, "denied");
    let e = sigilforge::no_runtime();
    assert_eq!(e.kind, HostErrorKind::Runtime);
    assert_eq!(e.message, "no tokio runtime available");
    assert_eq!(sigilforge::is_available(true).unwrap(), Value::Bool(true));
    assert_eq!(sigilforge::is_available(false).unwrap(), Value::Bool(false));
}
