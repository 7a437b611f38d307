use fusabi_stdlib_ext::error::HostErrorKind;
use fusabi_stdlib_ext::format::{
    format_string, json_decode, json_encode, replace_all, sprintf, template, value_to_json_simple,
    value_to_string,
};
use fusabi_stdlib_ext::text::chars_of;
use fusabi_stdlib_ext::value::{Float, Value};

fn text(s: &str) -> Value {
    Value::String(s.to_string())
}

fn float(x: f64) -> Value {
    Value::Float(Float { bits: x.to_bits(), text: x.to_string() })
}

#[test]
fn format_test_sprintf() {
    let result = sprintf(&[
        Value::String("Hello, %s! You have %d messages.".into()),
        Value::String("Alice".into()),
        Value::Int(5),
    ])
    .unwrap();

    assert_eq!(
        result.as_str().unwrap(),
        "Hello, Alice! You have 5 messages."
    );
}

#[test]
fn test_sprintf_float() {
    let result = sprintf(&[
        Value::String("Pi is approximately %f".into()),
        float(3.14159),
    ])
    .unwrap();

    assert!(result.as_str().unwrap().contains("3.14"));
}

#[test]
fn format_test_template() {
    let values = vec![
        ("name".to_string(), Value::String("Bob".into())),
        ("count".to_string(), Value::Int(3)),
    ];

    let result = template(&[
        Value::String("Hello, {{name}}! You have {{count}} items.".into()),
        Value::Dict(values),
    ])
    .unwrap();

    assert_eq!(result.as_str().unwrap(), "Hello, Bob! You have 3 items.");
}

#[test]
fn format_test_json_encode() {
    let result = json_encode(&[Value::Int(42)]).unwrap();
    assert_eq!(result.as_str().unwrap(), "42");

    let result = json_encode(&[Value::String("hello".into())]).unwrap();
    assert!(result.as_str().unwrap().contains("hello"));
}

#[test]
fn integration_test_sprintf() {
    let result = sprintf(&[
        Value::String("Hello, %s!".into()),
        Value::String("World".into()),
    ]);
    assert!(result.is_ok());
    assert_eq!(result.unwrap().as_str(), Some("Hello, World!"));
}

#[test]
fn test_sprintf_integer() {
    let result = sprintf(&[Value::String("Count: %d".into()), Value::Int(42)]);
    assert!(result.is_ok());
    assert_eq!(result.unwrap().as_str(), Some("Count: 42"));
}

#[test]
fn integration_test_template() {
    let values = vec![("name".to_string(), Value::String("Bob".into()))];

    let result = template(&[
        Value::String("Hello, {{name}}!".into()),
        Value::Dict(values),
    ]);
    assert!(result.is_ok());
    assert_eq!(result.unwrap().as_str(), Some("Hello, Bob!"));
}

#[test]
fn integration_test_json_encode() {
    let result = json_encode(&[Value::Int(42)]);
    assert!(result.is_ok());
    assert_eq!(result.unwrap().as_str(), Some("42"));
}

#[test]
fn directives() {
    let f = |fmt: &str, args: &[Value]| format_string(fmt, args).map_err(|e| e.message);
    assert_eq!(f("100%%", &[]), Ok("100%".to_string()));
    assert_eq!(f("%", &[]), Ok("%".to_string()));
    assert_eq!(f("a%", &[]), Ok("a%".to_string()));
    assert_eq!(f("%x%s", &[text("v")]), Ok("%xv".to_string()));
    assert_eq!(f("%%s", &[text("v")]), Ok("%s".to_string()));
    assert_eq!(f("%s%s", &[text("a"), text("b"), text("c")]), Ok("ab".to_string()));
    assert_eq!(
        f("%i|%d|%s", &[Value::Int(-1), text("t"), Value::Int(7)]),
        Ok("-1|t|7".to_string())
    );
    assert_eq!(
        f("%s %s %s", &[Value::Null, Value::Bool(true), Value::Bool(false)]),
        Ok("null true false".to_string())
    );
    assert_eq!(
        f("%s", &[]),
        Err("format.sprintf: not enough arguments".to_string())
    );
    assert_eq!(
        f("ok %d then %f", &[Value::Int(1)]),
        Err("format.sprintf: not enough arguments".to_string())
    );
    assert_eq!(f("é%sü", &[text("ö")]), Ok("éöü".to_string()));
    assert_eq!(f("", &[text("unused")]), Ok("".to_string()));
}

#[test]
fn float_directive() {
    let f = |fmt: &str, args: &[Value]| format_string(fmt, args).unwrap();
    assert_eq!(f("%f", &[float(2.5)]), "2.5");
    assert_eq!(f("%f", &[float(f64::NAN)]), "NaN");
    // an integer is shown as the nearest floating-point number
    assert_eq!(f("%f", &[Value::Int(5)]), "5");
    assert_eq!(f("%f", &[Value::Int(-3)]), "-3");
    assert_eq!(f("%f", &[Value::Int(i64::MAX)]), (i64::MAX as f64).to_string());
    assert_eq!(f("%f", &[Value::Int(9007199254740993)]), "9007199254740992");
    assert_eq!(f("%d", &[Value::Int(9007199254740993)]), "9007199254740993");
    // anything else as its plain text
    assert_eq!(f("%f", &[text("x")]), "x");
    assert_eq!(f("%d", &[float(1.5)]), "1.5");
}

#[test]
fn sprintf_reports_a_missing_format() {
    let e = sprintf(&[]).unwrap_err();
    assert_eq!(e.kind, HostErrorKind::HostFunction);
    assert_eq!(e.message, "format.sprintf: missing format string");
    let e = sprintf(&[Value::Int(1), text("x")]).unwrap_err();
    assert_eq!(e.message, "format.sprintf: missing format string");
    let e = sprintf(&[text("%s")]).unwrap_err();
    assert_eq!(e.message, "format.sprintf: not enough arguments");
}

#[test]
fn plain_texts() {
    assert_eq!(value_to_string(&Value::Null), "null");
    assert_eq!(value_to_string(&Value::Int(i64::MIN)), "-9223372036854775808");
    assert_eq!(value_to_string(&text("a \"b\"")), "a \"b\"");
    assert_eq!(value_to_string(&Value::List(vec![])), "[]");
    assert_eq!(
        value_to_string(&Value::List(vec![
            Value::Int(1),
            text("x"),
            Value::List(vec![Value::Null])
        ])),
        "[1, x, [null]]"
    );
    assert_eq!(value_to_string(&Value::Dict(vec![])), "{}");
    assert_eq!(
        value_to_string(&Value::Dict(vec![
            ("a".to_string(), Value::Int(1)),
            ("b".to_string(), Value::Dict(vec![("c".to_string(), Value::Bool(true))])),
        ])),
        "{a: 1, b: {c: true}}"
    );
    // what the host writes for the other values
    assert_eq!(value_to_string(&Value::Bytes(vec![1, 2, 3])), "<bytes len=3>");
    assert_eq!(value_to_string(&Value::Bytes(vec![])), "<bytes len=0>");
    assert_eq!(value_to_string(&Value::Error("boom".to_string())), "<error: boom>");
    assert_eq!(value_to_string(&Value::Function(None)), "<function>");
    assert_eq!(value_to_string(&Value::Function(Some("f".to_string()))), "<function f>");
}

#[test]
fn plain_json() {
    assert_eq!(value_to_json_simple(&Value::Null), "null");
    assert_eq!(value_to_json_simple(&Value::Bool(false)), "false");
    assert_eq!(value_to_json_simple(&float(0.5)), "0.5");
    assert_eq!(value_to_json_simple(&text("a\"b\\c")), "\"a\\\"b\\\\c\"");
    assert_eq!(
        value_to_json_simple(&Value::List(vec![Value::Int(1), text("x"), Value::Null])),
        "[1,\"x\",null]"
    );
    assert_eq!(
        value_to_json_simple(&Value::Dict(vec![
            ("k".to_string(), Value::List(vec![])),
            ("l".to_string(), Value::Dict(vec![])),
        ])),
        "{\"k\":[],\"l\":{}}"
    );
    assert_eq!(value_to_json_simple(&Value::Bytes(vec![1])), "null");
    assert_eq!(value_to_json_simple(&Value::Error("e".to_string())), "null");
    assert_eq!(value_to_json_simple(&Value::Function(None)), "null");
    assert_eq!(
        json_encode(&[]).unwrap_err().message,
        "format.json_encode: missing value"
    );
}

#[test]
fn json_decode_is_not_provided() {
    assert_eq!(
        json_decode(&[]).unwrap_err().message,
        "format.json_decode: missing JSON string"
    );
    assert_eq!(
        json_decode(&[Value::Int(1)]).unwrap_err().message,
        "format.json_decode: missing JSON string"
    );
    assert_eq!(
        json_decode(&[text("{}")]).unwrap_err().message,
        "json_decode requires serde-support feature"
    );
}

#[test]
fn templates() {
    let t = |s: &str, entries: Vec<(&str, Value)>| {
        let entries = entries.into_iter().map(|(k, v)| (k.to_string(), v)).collect();
        template(&[text(s), Value::Dict(entries)])
            .map(|v| v.as_str().unwrap().to_string())
            .map_err(|e| e.message)
    };
    assert_eq!(t("{{a}}{{a}} {{b}}", vec![("a", Value::Int(1))]), Ok("11 {{b}}".to_string()));
    assert_eq!(t("{a} {{ a }}", vec![("a", Value::Int(1))]), Ok("{a} {{ a }}".to_string()));
    // entries are substituted one after the other
    assert_eq!(
        t("{{a}}", vec![("a", text("{{b}}")), ("b", text("x"))]),
        Ok("x".to_string())
    );
    assert_eq!(
        t("{{a}}", vec![("b", text("x")), ("a", text("{{b}}"))]),
        Ok("{{b}}".to_string())
    );
    assert_eq!(t("{{{{}}}}", vec![("", text("-"))]), Ok("{{-}}".to_string()));
    assert_eq!(t("", vec![]), Ok("".to_string()));
    assert_eq!(
        template(&[]).unwrap_err().message,
        "format.template: missing template string"
    );
    assert_eq!(
        template(&[text("x")]).unwrap_err().message,
        "format.template: missing values map"
    );
    assert_eq!(
        template(&[text("x"), Value::List(vec![])]).unwrap_err().message,
        "format.template: missing values map"
    );
}

#[test]
fn replacing() {
    let r = |s: &str, from: &str, to: &str| -> String {
        replace_all(&chars_of(s), &chars_of(from), &chars_of(to)).into_iter().collect()
    };
    for (s, from, to) in [
        ("aaa", "aa", "b"),
        ("abcabc", "bc", ""),
        ("abc", "x", "y"),
        ("", "x", "y"),
        ("xxxx", "x", "xx"),
        ("abab", "ab", "ba"),
        ("aXbXc", "X", "--"),
        ("abc", "", "-"),
        ("", "", "-"),
        ("é", "", ""),
    ] {
        assert_eq!(r(s, from, to), s.replace(from, to));
    }
}
