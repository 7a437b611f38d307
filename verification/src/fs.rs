//! Filesystem module: the checks before an operation on a path. The
//! operation itself is performed by the embedding program, which hands its
//! outcome back to be shaped into the value for the script.

use vstd::prelude::*;
use crate::error::{Error, HostError, HostErrorKind};
use crate::safety::{SafetyConfig, Verdict};
use crate::text::{concat3, copy_str};
use crate::value::{arg_str, push_item, text_arg, views_of, Value, ValueView};

verus! {

/// The error that reaches the script for the verdict of a safety check.
pub open spec fn refusal(verdict: Verdict) -> Option<(HostErrorKind, Seq<char>)> {
    match verdict {
        Some((kind, detail)) => Some(
            (HostErrorKind::HostFunction, Error::prefix_of(kind) + detail),
        ),
        None => None,
    }
}

/// The path that an operation may work on: the first argument, where it
/// is a text and the safety policy permits it for reading (`write` false)
/// or writing (`write` true). `missing` is the message for an operation
/// without a path.
pub open spec fn permitted_path(
    safety: SafetyConfig,
    args: Seq<ValueView>,
    write: bool,
    missing: Seq<char>,
) -> Result<Seq<char>, (HostErrorKind, Seq<char>)> {
    match text_arg(args, 0) {
        None => Err((HostErrorKind::HostFunction, missing)),
        Some(path) => {
            let verdict = if write {
                safety.paths.write_verdict(path)
            } else {
                safety.paths.read_verdict(path)
            };
            match refusal(verdict) {
                Some(e) => Err(e),
                None => Ok(path),
            }
        },
    }
}

fn checked_path<'a>(safety: &SafetyConfig, args: &'a [Value], write: bool, missing: &str) -> (r:
    Result<&'a str, HostError>)
    ensures
        match permitted_path(*safety, views_of(args@), write, missing@) {
            Ok(path) => r matches Ok(p) && p@ == path,
            Err(e) => r matches Err(x) && x@ == e,
        },
{
    let path = match arg_str(args, 0) {
        Some(p) => p,
        None => {
            return Err(HostError::host_function(missing));
        },
    };
    let checked = if write {
        safety.paths.check_write(path)
    } else {
        safety.paths.check_read(path)
    };
    match checked {
        Ok(_) => Ok(path),
        Err(e) => Err(HostError::from_error(&e)),
    }
}

/// `fs.read`: the path of the file to read, once reading it is permitted.
pub fn read_file(safety: &SafetyConfig, args: &[Value]) -> (r: Result<String, HostError>)
    ensures
        match permitted_path(*safety, views_of(args@), false, "fs.read: missing path argument"@) {
            Ok(path) => r matches Ok(p) && p@ == path,
            Err(e) => r matches Err(x) && x@ == e,
        },
{
    match checked_path(safety, args, false, "fs.read: missing path argument") {
        Ok(p) => Ok(copy_str(p)),
        Err(e) => Err(e),
    }
}

/// What `fs.write` asks for: the path to write to and the content.
pub open spec fn write_request(safety: SafetyConfig, args: Seq<ValueView>) -> Result<
    (Seq<char>, Seq<char>),
    (HostErrorKind, Seq<char>),
> {
    match text_arg(args, 0) {
        None => Err((HostErrorKind::HostFunction, "fs.write: missing path argument"@)),
        Some(path) => match text_arg(args, 1) {
            None => Err((HostErrorKind::HostFunction, "fs.write: missing content argument"@)),
            Some(content) => match refusal(safety.paths.write_verdict(path)) {
                Some(e) => Err(e),
                None => Ok((path, content)),
            },
        },
    }
}

/// `fs.write`: the path of the file to write and the content to write,
/// once writing there is permitted.
pub fn write_file(safety: &SafetyConfig, args: &[Value]) -> (r: Result<(String, String), HostError>)
    ensures
        match write_request(*safety, views_of(args@)) {
            Ok((path, content)) => r matches Ok(pair) && pair.0@ == path && pair.1@ == content,
            Err(e) => r matches Err(x) && x@ == e,
        },
{
    let path = match arg_str(args, 0) {
        Some(p) => p,
        None => {
            return Err(HostError::host_function("fs.write: missing path argument"));
        },
    };
    let content = match arg_str(args, 1) {
        Some(c) => c,
        None => {
            return Err(HostError::host_function("fs.write: missing content argument"));
        },
    };
    match safety.paths.check_write(path) {
        Ok(_) => Ok((copy_str(path), copy_str(content))),
        Err(e) => Err(HostError::from_error(&e)),
    }
}

/// `fs.exists`: the path to look for, once reading it is permitted.
pub fn path_exists(safety: &SafetyConfig, args: &[Value]) -> (r: Result<String, HostError>)
    ensures
        match permitted_path(
            *safety,
            views_of(args@),
            false,
            "fs.exists: missing path argument"@,
        ) {
            Ok(path) => r matches Ok(p) && p@ == path,
            Err(e) => r matches Err(x) && x@ == e,
        },
{
    match checked_path(safety, args, false, "fs.exists: missing path argument") {
        Ok(p) => Ok(copy_str(p)),
        Err(e) => Err(e),
    }
}

/// `fs.list`: the path of the directory to list, once reading it is
/// permitted.
pub fn list_dir(safety: &SafetyConfig, args: &[Value]) -> (r: Result<String, HostError>)
    ensures
        match permitted_path(*safety, views_of(args@), false, "fs.list: missing path argument"@) {
            Ok(path) => r matches Ok(p) && p@ == path,
            Err(e) => r matches Err(x) && x@ == e,
        },
{
    match checked_path(safety, args, false, "fs.list: missing path argument") {
        Ok(p) => Ok(copy_str(p)),
        Err(e) => Err(e),
    }
}

/// `fs.mkdir`: the path of the directory to create, once writing there is
/// permitted.
pub fn mkdir(safety: &SafetyConfig, args: &[Value]) -> (r: Result<String, HostError>)
    ensures
        match permitted_path(*safety, views_of(args@), true, "fs.mkdir: missing path argument"@) {
            Ok(path) => r matches Ok(p) && p@ == path,
            Err(e) => r matches Err(x) && x@ == e,
        },
{
    match checked_path(safety, args, true, "fs.mkdir: missing path argument") {
        Ok(p) => Ok(copy_str(p)),
        Err(e) => Err(e),
    }
}

/// `fs.remove`: the path to remove, once writing there is permitted.
pub fn remove(safety: &SafetyConfig, args: &[Value]) -> (r: Result<String, HostError>)
    ensures
        match permitted_path(
            *safety,
            views_of(args@),
            true,
            "fs.remove: missing path argument"@,
        ) {
            Ok(path) => r matches Ok(p) && p@ == path,
            Err(e) => r matches Err(x) && x@ == e,
        },
{
    match checked_path(safety, args, true, "fs.remove: missing path argument") {
        Ok(p) => Ok(copy_str(p)),
        Err(e) => Err(e),
    }
}

/// The error for an operation that the system refused: the name of the
/// operation, a colon, and the system's message.
pub fn failure(operation: &str, message: &str) -> (e: HostError)
    ensures
        e@ == (HostErrorKind::HostFunction, operation@ + ": "@ + message@),
{
    let text = concat3(operation, ": ", message);
    HostError::host_function(text.as_str())
}

/// The value for a directory listing: the list of the names.
pub fn listing(names: &Vec<String>) -> (r: Value)
    ensures
        r@ == ValueView::List(names@.map_values(|n: String| ValueView::Text(n@))),
{
    let mut items: Vec<Value> = Vec::new();
    assert(views_of(items@) =~= Seq::<ValueView>::empty());
    let mut i: usize = 0;
    while i < names.len()
        invariant
            i <= names.len(),
            views_of(items@) == names@.map_values(|n: String| ValueView::Text(n@)).take(i as int),
        decreases names.len() - i,
    {
        push_item(&mut items, Value::String(names[i].clone()));
        assert(views_of(items@) =~= names@.map_values(|n: String| ValueView::Text(n@)).take(
            i + 1,
        ));
        i += 1;
    }
    assert(names@.map_values(|n: String| ValueView::Text(n@)).take(names@.len() as int)
        =~= names@.map_values(|n: String| ValueView::Text(n@)));
    Value::List(items)
}

} // verus!
