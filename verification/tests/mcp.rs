use fusabi_stdlib_ext::error::ErrorKind;
use fusabi_stdlib_ext::json::{fusabi_to_json, hex_string, json_to_fusabi, Json};
use fusabi_stdlib_ext::mcp::{
    mcp_server_get_endpoint, mcp_server_get_inject, mcp_server_get_name, mcp_server_new,
    mcp_server_to_json, mcp_server_with_inject, strings_among, McpMessage, McpServerConfig,
    ReadResourceParams, PROTOCOL_VERSION,
};
use fusabi_stdlib_ext::value::{
    arg, arg_int, arg_map, arg_str, dict_get, push_entry, push_item, set_entry, Float, Value,
};

fn text(s: &str) -> Value {
    Value::String(s.to_string())
}

fn float(x: f64) -> Value {
    Value::Float(Float { bits: x.to_bits(), text: x.to_string() })
}

#[test]
fn test_fusabi_to_json_roundtrip() {
    let original = Value::Dict(vec![
        ("name".to_string(), Value::String("test".to_string())),
        ("count".to_string(), Value::Int(42)),
        ("items".to_string(), Value::List(vec![Value::Int(1), Value::Int(2)])),
    ]);

    let json = fusabi_to_json(&original);
    let back = json_to_fusabi(&json);

    // Compare maps by checking individual keys
    if let Value::Dict(orig_map) = &original {
        if let Value::Dict(back_map) = &back {
            assert_eq!(orig_map.len(), back_map.len());
            for (k, v) in orig_map {
                assert_eq!(
                    dict_get(back_map, k).map(|v| format!("{:?}", v)),
                    Some(format!("{:?}", v))
                );
            }
        } else {
            panic!("Expected Map value");
        }
    }
}

#[test]
fn test_mcp_server_config_new() {
    let config = McpServerConfig::new("test-server", "http://localhost:3000");
    assert_eq!(config.name, "test-server");
    assert_eq!(config.endpoint, "http://localhost:3000");
    assert!(config.inject.is_empty());
}

#[test]
fn test_mcp_server_config_with_inject() {
    let config = McpServerConfig::new("test", "http://localhost")
        .with_inject(vec!["tasks".into(), "context".into()]);
    assert_eq!(config.inject.len(), 2);
    assert_eq!(config.inject[0], "tasks");
}

#[test]
fn test_mcp_server_config_roundtrip() {
    let original = McpServerConfig {
        name: "roundtrip".into(),
        endpoint: "http://example.com".into(),
        inject: vec!["a".into(), "b".into()],
    };

    let value = original.to_fusabi_value();
    let recovered = McpServerConfig::from_fusabi_value(&value).unwrap();

    assert_eq!(recovered.name, original.name);
    assert_eq!(recovered.endpoint, original.endpoint);
    assert_eq!(recovered.inject, original.inject);
}

#[test]
fn test_mcp_server_new_function() {
    let name = Value::String("my-server".into());
    let endpoint = Value::String("http://localhost:8080".into());

    let result = mcp_server_new(&name, &endpoint).unwrap();
    let config = McpServerConfig::from_fusabi_value(&result).unwrap();

    assert_eq!(config.name, "my-server");
    assert_eq!(config.endpoint, "http://localhost:8080");
}

#[test]
fn test_mcp_server_with_inject_function() {
    let server = McpServerConfig::new("test", "http://localhost").to_fusabi_value();
    let inject = Value::List(vec![
        Value::String("item1".into()),
        Value::String("item2".into()),
    ]);

    let result = mcp_server_with_inject(&server, &inject).unwrap();
    let config = McpServerConfig::from_fusabi_value(&result).unwrap();

    assert_eq!(config.inject, vec!["item1", "item2"]);
}

#[test]
fn test_mcp_server_to_json_function() {
    let server = McpServerConfig::new("json-test", "http://test.com")
        .with_inject(vec!["data".into()])
        .to_fusabi_value();

    let config = mcp_server_to_json(&server).unwrap();

    assert!(config.name.contains("json-test"));
    assert!(config.endpoint.contains("http://test.com"));
    assert!(config.inject.contains(&"data".to_string()));
}

#[test]
fn server_configurations_from_values() {
    let parse = |v: Value| {
        McpServerConfig::from_fusabi_value(&v)
            .map(|c| (c.name, c.endpoint, c.inject))
            .map_err(|e| (e.error_kind(), e.message()))
    };
    assert_eq!(
        parse(Value::Int(1)),
        Err((
            ErrorKind::InvalidValue,
            "invalid value: Expected Map for MCP server config".to_string()
        ))
    );
    assert_eq!(
        parse(Value::Dict(vec![])),
        Err((ErrorKind::InvalidValue, "invalid value: MCP config missing 'name' field".to_string()))
    );
    assert_eq!(
        parse(Value::Dict(vec![("name".to_string(), Value::Int(1))])),
        Err((ErrorKind::InvalidValue, "invalid value: MCP config missing 'name' field".to_string()))
    );
    assert_eq!(
        parse(Value::Dict(vec![("name".to_string(), text("n"))])),
        Err((
            ErrorKind::InvalidValue,
            "invalid value: MCP config missing 'endpoint' field".to_string()
        ))
    );
    assert_eq!(
        parse(Value::Dict(vec![
            ("endpoint".to_string(), text("e")),
            ("name".to_string(), text("n")),
        ])),
        Ok(("n".to_string(), "e".to_string(), vec![]))
    );
    // what is no text in the list is left out; a list that is none counts as empty
    assert_eq!(
        parse(Value::Dict(vec![
            ("name".to_string(), text("n")),
            ("endpoint".to_string(), text("e")),
            ("inject".to_string(), Value::List(vec![text("a"), Value::Int(1), text("b")])),
        ])),
        Ok(("n".to_string(), "e".to_string(), vec!["a".to_string(), "b".to_string()]))
    );
    assert_eq!(
        parse(Value::Dict(vec![
            ("name".to_string(), text("n")),
            ("endpoint".to_string(), text("e")),
            ("inject".to_string(), text("a")),
        ])),
        Ok(("n".to_string(), "e".to_string(), vec![]))
    );
    assert_eq!(
        strings_among(&vec![Value::Null, text("x"), Value::Bool(true), text("y")]),
        vec!["x", "y"]
    );
}

#[test]
fn server_functions() {
    let server = mcp_server_new(&text("n"), &text("e")).unwrap();
    assert_eq!(
        server,
        Value::Dict(vec![
            ("name".to_string(), text("n")),
            ("endpoint".to_string(), text("e")),
            ("inject".to_string(), Value::List(vec![])),
        ])
    );
    assert_eq!(
        mcp_server_new(&Value::Int(1), &text("e")).unwrap_err().message(),
        "invalid value: name must be a string"
    );
    assert_eq!(
        mcp_server_new(&text("n"), &Value::Null).unwrap_err().message(),
        "invalid value: endpoint must be a string"
    );
    assert_eq!(
        mcp_server_with_inject(&server, &text("x")).unwrap_err().message(),
        "invalid value: inject must be a list of strings"
    );
    assert_eq!(
        mcp_server_with_inject(&Value::Null, &Value::List(vec![])).unwrap_err().message(),
        "invalid value: Expected Map for MCP server config"
    );
    let with =
        mcp_server_with_inject(&server, &Value::List(vec![text("a"), Value::Int(1)])).unwrap();
    assert_eq!(mcp_server_get_name(&with).unwrap(), text("n"));
    assert_eq!(mcp_server_get_endpoint(&with).unwrap(), text("e"));
    assert_eq!(mcp_server_get_inject(&with).unwrap(), Value::List(vec![text("a")]));
    assert!(mcp_server_get_name(&Value::Null).is_err());
    assert!(mcp_server_get_endpoint(&Value::Null).is_err());
    assert!(mcp_server_get_inject(&Value::Null).is_err());
    assert!(mcp_server_to_json(&Value::Null).is_err());
    assert_eq!(PROTOCOL_VERSION, "2024-11-05");
    assert_eq!(McpMessage::ListTools.method(), "tools/list");
    assert_eq!(
        McpMessage::ReadResource(ReadResourceParams { uri: "u".to_string() }).method(),
        "resources/read"
    );
}

#[test]
fn json_conversion() {
    assert_eq!(fusabi_to_json(&Value::Null), Json::Null);
    assert_eq!(fusabi_to_json(&Value::Bool(true)), Json::Bool(true));
    assert_eq!(fusabi_to_json(&Value::Int(-5)), Json::Int(-5));
    assert_eq!(fusabi_to_json(&text("s")), Json::String("s".to_string()));
    assert_eq!(
        fusabi_to_json(&float(1.5)),
        Json::Float(Float { bits: 1.5f64.to_bits(), text: "1.5".to_string() })
    );
    // a number that is not finite has no JSON form
    assert_eq!(fusabi_to_json(&float(f64::NAN)), Json::Null);
    assert_eq!(fusabi_to_json(&float(f64::INFINITY)), Json::Null);
    assert_eq!(fusabi_to_json(&float(f64::NEG_INFINITY)), Json::Null);
    assert_ne!(fusabi_to_json(&float(f64::MAX)), Json::Null);
    assert_ne!(fusabi_to_json(&float(-0.0)), Json::Null);
    assert_ne!(fusabi_to_json(&float(f64::MIN_POSITIVE / 2.0)), Json::Null);
    assert_eq!(
        fusabi_to_json(&Value::Bytes(vec![0, 1, 0xab, 0xff])),
        Json::String("0001abff".to_string())
    );
    assert_eq!(hex_string(&vec![]), "");
    assert_eq!(
        fusabi_to_json(&Value::Function(Some("f".to_string()))),
        Json::String("<function>".to_string())
    );
    assert_eq!(
        fusabi_to_json(&Value::Error("boom".to_string())),
        Json::Object(vec![("error".to_string(), Json::String("boom".to_string()))])
    );
    let nested = Value::List(vec![
        Value::Dict(vec![("k".to_string(), Value::List(vec![Value::Int(1)]))]),
        Value::Null,
    ]);
    let json = fusabi_to_json(&nested);
    assert_eq!(
        json,
        Json::Array(vec![
            Json::Object(vec![("k".to_string(), Json::Array(vec![Json::Int(1)]))]),
            Json::Null,
        ])
    );
    assert_eq!(json_to_fusabi(&json), nested);
    assert_eq!(json_to_fusabi(&fusabi_to_json(&float(2.5))), float(2.5));
}

#[test]
fn values_and_arguments() {
    let args = [text("a"), Value::Int(2), Value::Dict(vec![("k".to_string(), Value::Null)])];
    assert_eq!(arg(&args, 0), Some(&text("a")));
    assert_eq!(arg(&args, 3), None);
    assert_eq!(arg_str(&args, 0), Some("a"));
    assert_eq!(arg_str(&args, 1), None);
    assert_eq!(arg_int(&args, 1), Some(2));
    assert_eq!(arg_int(&args, 0), None);
    assert_eq!(arg_int(&args, 9), None);
    assert!(arg_map(&args, 2).is_some());
    assert!(arg_map(&args, 1).is_none());
    assert!(Value::null().is_null());
    assert!(Value::error("e").is_error());
    assert_eq!(Value::error("e").as_error(), Some("e"));
    assert_eq!(Value::string("s"), text("s"));
    assert_eq!(Value::Bool(true).as_bool(), Some(true));
    assert_eq!(Value::Int(1).as_bool(), None);
    assert_eq!(float(1.0).as_float().map(|f| f.bits), Some(1.0f64.to_bits()));
    // an integer counts as the nearest floating-point number
    assert_eq!(
        Value::Int(1).as_float(),
        Some(Float { bits: 1.0f64.to_bits(), text: "1".to_string() })
    );
    assert!(text("1").as_float().is_none());
    assert_eq!(Value::Bytes(vec![1]).as_bytes(), Some(&vec![1]));
    assert_eq!(Value::List(vec![Value::Null]).as_list().map(|l| l.len()), Some(1));

    let mut entries = Vec::new();
    push_entry(&mut entries, "a", Value::Int(1));
    push_entry(&mut entries, "b", Value::Int(2));
    push_entry(&mut entries, "a", Value::Int(3));
    // the earlier of two entries with one key is found
    assert_eq!(dict_get(&entries, "a"), Some(&Value::Int(1)));
    assert_eq!(dict_get(&entries, "c"), None);
    set_entry(&mut entries, "a", Value::Int(4));
    set_entry(&mut entries, "c", Value::Int(5));
    assert_eq!(
        entries,
        vec![
            ("a".to_string(), Value::Int(4)),
            ("b".to_string(), Value::Int(2)),
            ("a".to_string(), Value::Int(3)),
            ("c".to_string(), Value::Int(5)),
        ]
    );
    let mut items = Vec::new();
    push_item(&mut items, Value::Null);
    assert_eq!(items, vec![Value::Null]);
}
