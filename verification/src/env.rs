//! Environment module: the checks before an environment variable is read
//! or set. Reading and setting are done by the embedding program.

use vstd::prelude::*;
use crate::error::{HostError, HostErrorKind};
use crate::fs::refusal;
use crate::safety::SafetyConfig;
use crate::text::copy_str;
use crate::value::{arg_str, text_arg, views_of, Value, ValueView};

verus! {

/// What `env.get` asks for: the name of the variable to read.
pub open spec fn get_request(safety: SafetyConfig, args: Seq<ValueView>) -> Result<
    Seq<char>,
    (HostErrorKind, Seq<char>),
> {
    match text_arg(args, 0) {
        None => Err((HostErrorKind::HostFunction, "env.get: missing name argument"@)),
        Some(name) => match refusal(safety.env_verdict(name)) {
            Some(e) => Err(e),
            None => Ok(name),
        },
    }
}

/// `env.get`: the name of the variable to read, once reading it is
/// permitted.
pub fn get(safety: &SafetyConfig, args: &[Value]) -> (r: Result<String, HostError>)
    ensures
        match get_request(*safety, views_of(args@)) {
            Ok(name) => r matches Ok(n) && n@ == name,
            Err(e) => r matches Err(x) && x@ == e,
        },
{
    let name = match arg_str(args, 0) {
        Some(n) => n,
        None => {
            return Err(HostError::host_function("env.get: missing name argument"));
        },
    };
    match safety.check_env(name) {
        Ok(_) => Ok(copy_str(name)),
        Err(e) => Err(HostError::from_error(&e)),
    }
}

/// The value for a variable that was read: its text, or null where the
/// variable is not set.
pub fn variable(value: Option<String>) -> (r: Value)
    ensures
        r@ == match value {
            Some(text) => ValueView::Text(text@),
            None => ValueView::Null,
        },
{
    match value {
        Some(text) => Value::String(text),
        None => Value::Null,
    }
}

/// What `env.set` asks for: the name of the variable and its new value.
pub open spec fn set_request(safety: SafetyConfig, args: Seq<ValueView>) -> Result<
    (Seq<char>, Seq<char>),
    (HostErrorKind, Seq<char>),
> {
    match text_arg(args, 0) {
        None => Err((HostErrorKind::HostFunction, "env.set: missing name argument"@)),
        Some(name) => match text_arg(args, 1) {
            None => Err((HostErrorKind::HostFunction, "env.set: missing value argument"@)),
            Some(value) => match refusal(safety.env_verdict(name)) {
                Some(e) => Err(e),
                None => Ok((name, value)),
            },
        },
    }
}

/// `env.set`: the name of the variable to set and its new value, once
/// setting it is permitted.
pub fn set(safety: &SafetyConfig, args: &[Value]) -> (r: Result<(String, String), HostError>)
    ensures
        match set_request(*safety, views_of(args@)) {
            Ok((name, value)) => r matches Ok(pair) && pair.0@ == name && pair.1@ == value,
            Err(e) => r matches Err(x) && x@ == e,
        },
{
    let name = match arg_str(args, 0) {
        Some(n) => n,
        None => {
            return Err(HostError::host_function("env.set: missing name argument"));
        },
    };
    let value = match arg_str(args, 1) {
        Some(v) => v,
        None => {
            return Err(HostError::host_function("env.set: missing value argument"));
        },
    };
    match safety.check_env(name) {
        Ok(_) => Ok((copy_str(name), copy_str(value))),
        Err(e) => Err(HostError::from_error(&e)),
    }
}

/// `env.cwd`: the value for the working directory as the system reported
/// it, or the error for the system's refusal.
pub fn cwd(current: Result<String, String>) -> (r: Result<Value, HostError>)
    ensures
        match current {
            Ok(dir) => r matches Ok(v) && v@ == ValueView::Text(dir@),
            Err(msg) => r matches Err(e) && e@ == (
                HostErrorKind::HostFunction,
                "env.cwd: "@ + msg@,
            ),
        },
{
    match current {
        Ok(dir) => Ok(Value::String(dir)),
        Err(msg) => {
            let text = crate::text::concat("env.cwd: ", msg.as_str());
            Err(HostError::host_function(text.as_str()))
        },
    }
}

} // verus!
