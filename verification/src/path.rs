//! Path module: joining paths and taking them apart.
//!
//! What a path's parent, file name and extension are is left to the
//! standard library; this module checks the arguments and shapes the
//! results.

use vstd::prelude::*;
use crate::error::{HostError, HostErrorKind};
use crate::text::chars_of;
use crate::value::{
    arg_str, lemma_views_of, outcome, text_arg, views_of, HostOutcome, Value, ValueView,
};

verus! {

/// The path `base` extended by `part`, as the standard library extends it
/// (a `part` that is absolute takes the place of `base`).
pub uninterp spec fn pushed(base: Seq<char>, part: Seq<char>) -> Seq<char>;

/// The path without its last component, where it has one to lose.
pub uninterp spec fn parent_of(path: Seq<char>) -> Option<Seq<char>>;

/// The last component of the path, where it is a name.
pub uninterp spec fn file_name_of(path: Seq<char>) -> Option<Seq<char>>;

/// The extension of the path's file name, where it has one.
pub uninterp spec fn extension_of(path: Seq<char>) -> Option<Seq<char>>;

/// The path rebuilt from its components.
pub uninterp spec fn normalized(path: Seq<char>) -> Seq<char>;

/// Trusted: `PathBuf::push` on the path `base`. The result depends on the
/// two texts alone.
#[verifier::external_body]
fn path_push(base: &str, part: &str) -> (r: String)
    ensures
        r@ == pushed(base@, part@),
{
    let mut buffer = std::path::PathBuf::from(base);
    buffer.push(part);
    buffer.to_string_lossy().into_owned()
}

/// Trusted: `Path::parent`. The result depends on the text alone.
#[verifier::external_body]
fn path_parent(path: &str) -> (r: Option<String>)
    ensures
        r is Some <==> parent_of(path@) is Some,
        r matches Some(p) ==> parent_of(path@) == Some(p@),
{
    match std::path::Path::new(path).parent() {
        Some(p) => Some(p.to_string_lossy().into_owned()),
        None => None,
    }
}

/// Trusted: `Path::file_name`. The result depends on the text alone.
#[verifier::external_body]
fn path_file_name(path: &str) -> (r: Option<String>)
    ensures
        r is Some <==> file_name_of(path@) is Some,
        r matches Some(p) ==> file_name_of(path@) == Some(p@),
{
    match std::path::Path::new(path).file_name() {
        Some(p) => Some(p.to_string_lossy().into_owned()),
        None => None,
    }
}

/// Trusted: `Path::extension`. The result depends on the text alone.
#[verifier::external_body]
fn path_extension(path: &str) -> (r: Option<String>)
    ensures
        r is Some <==> extension_of(path@) is Some,
        r matches Some(p) ==> extension_of(path@) == Some(p@),
{
    match std::path::Path::new(path).extension() {
        Some(p) => Some(p.to_string_lossy().into_owned()),
        None => None,
    }
}

/// Trusted: `Path::components`, collected into a path again. The result
/// depends on the text alone.
#[verifier::external_body]
fn path_normalize(path: &str) -> (r: String)
    ensures
        r@ == normalized(path@),
{
    let rebuilt: std::path::PathBuf = std::path::Path::new(path).components().collect();
    rebuilt.to_string_lossy().into_owned()
}

/// Whether the first `n` arguments are all texts.
pub open spec fn all_texts(args: Seq<ValueView>, n: int) -> bool {
    forall|i: int| 0 <= i < n && i < args.len() ==> (#[trigger] args[i]).as_text() is Some
}

/// The first `n` arguments joined into one path, beginning with the empty
/// path.
pub open spec fn joined_path(args: Seq<ValueView>, n: int) -> Seq<char>
    decreases n,
{
    if n <= 0 || n > args.len() {
        Seq::empty()
    } else {
        pushed(joined_path(args, n - 1), args[n - 1].as_text()->0)
    }
}

/// What `path.join` gives for `args`.
pub open spec fn join_result(args: Seq<ValueView>) -> HostOutcome {
    if args.len() == 0 {
        Err((HostErrorKind::HostFunction, "path.join: no arguments"@))
    } else if !all_texts(args, args.len() as int) {
        Err((HostErrorKind::HostFunction, "path.join: argument must be string"@))
    } else {
        Ok(ValueView::Text(joined_path(args, args.len() as int)))
    }
}

/// `path.join`: joins the arguments, which must all be texts, into one
/// path.
pub fn join(args: &[Value]) -> (r: Result<Value, HostError>)
    ensures
        outcome(r) == join_result(views_of(args@)),
{
    if args.len() == 0 {
        return Err(HostError::host_function("path.join: no arguments"));
    }
    let ghost items = views_of(args@);
    proof {
        lemma_views_of(args@);
    }
    let mut result = String::new();
    let mut i: usize = 0;
    while i < args.len()
        invariant
            i <= args.len(),
            items == views_of(args@),
            items.len() == args@.len(),
            forall|k: int| 0 <= k < args@.len() ==> (#[trigger] items[k]) == args@[k]@,
            all_texts(items, i as int),
            result@ == joined_path(items, i as int),
        decreases args.len() - i,
    {
        match args[i].as_str() {
            Some(part) => {
                result = path_push(result.as_str(), part);
            },
            None => {
                assert(items[i as int].as_text() is None);
                return Err(HostError::host_function("path.join: argument must be string"));
            },
        }
        i += 1;
    }
    Ok(Value::String(result))
}

/// The value for a part of a path: the text, or null where the path has no
/// such part.
pub open spec fn part_value(part: Option<Seq<char>>) -> ValueView {
    match part {
        Some(text) => ValueView::Text(text),
        None => ValueView::Null,
    }
}

fn part(value: Option<String>) -> (r: Value)
    ensures
        r@ == part_value(
            match value {
                Some(text) => Some(text@),
                None => None,
            },
        ),
{
    match value {
        Some(text) => Value::String(text),
        None => Value::Null,
    }
}

/// What `path.dirname` gives for `args`.
pub open spec fn dirname_result(args: Seq<ValueView>) -> HostOutcome {
    match text_arg(args, 0) {
        None => Err((HostErrorKind::HostFunction, "path.dirname: missing path argument"@)),
        Some(path) => Ok(part_value(parent_of(path))),
    }
}

/// `path.dirname`: the path in the first argument without its last
/// component, or null.
pub fn dirname(args: &[Value]) -> (r: Result<Value, HostError>)
    ensures
        outcome(r) == dirname_result(views_of(args@)),
{
    match arg_str(args, 0) {
        Some(path) => Ok(part(path_parent(path))),
        None => Err(HostError::host_function("path.dirname: missing path argument")),
    }
}

/// What `path.basename` gives for `args`.
pub open spec fn basename_result(args: Seq<ValueView>) -> HostOutcome {
    match text_arg(args, 0) {
        None => Err((HostErrorKind::HostFunction, "path.basename: missing path argument"@)),
        Some(path) => Ok(part_value(file_name_of(path))),
    }
}

/// `path.basename`: the last component of the path in the first argument,
/// or null.
pub fn basename(args: &[Value]) -> (r: Result<Value, HostError>)
    ensures
        outcome(r) == basename_result(views_of(args@)),
{
    match arg_str(args, 0) {
        Some(path) => Ok(part(path_file_name(path))),
        None => Err(HostError::host_function("path.basename: missing path argument")),
    }
}

/// What `path.extension` gives for `args`.
pub open spec fn extension_result(args: Seq<ValueView>) -> HostOutcome {
    match text_arg(args, 0) {
        None => Err((HostErrorKind::HostFunction, "path.extension: missing path argument"@)),
        Some(path) => Ok(part_value(extension_of(path))),
    }
}

/// `path.extension`: the extension of the path in the first argument, or
/// null.
pub fn extension(args: &[Value]) -> (r: Result<Value, HostError>)
    ensures
        outcome(r) == extension_result(views_of(args@)),
{
    match arg_str(args, 0) {
        Some(path) => Ok(part(path_extension(path))),
        None => Err(HostError::host_function("path.extension: missing path argument")),
    }
}

/// What `path.normalize` gives for `args`.
pub open spec fn normalize_result(args: Seq<ValueView>) -> HostOutcome {
    match text_arg(args, 0) {
        None => Err((HostErrorKind::HostFunction, "path.normalize: missing path argument"@)),
        Some(path) => Ok(ValueView::Text(normalized(path))),
    }
}

/// `path.normalize`: the path in the first argument rebuilt from its
/// components.
pub fn normalize(args: &[Value]) -> (r: Result<Value, HostError>)
    ensures
        outcome(r) == normalize_result(views_of(args@)),
{
    match arg_str(args, 0) {
        Some(path) => Ok(Value::String(path_normalize(path))),
        None => Err(HostError::host_function("path.normalize: missing path argument")),
    }
}

/// What `path.is_absolute` gives for `args`: whether the path begins at
/// the root.
pub open spec fn is_absolute_result(args: Seq<ValueView>) -> HostOutcome {
    match text_arg(args, 0) {
        None => Err((HostErrorKind::HostFunction, "path.is_absolute: missing path argument"@)),
        Some(path) => Ok(ValueView::Bool(path.len() > 0 && path[0] == '/')),
    }
}

/// `path.is_absolute`: whether the path in the first argument begins at
/// the root.
pub fn is_absolute(args: &[Value]) -> (r: Result<Value, HostError>)
    ensures
        outcome(r) == is_absolute_result(views_of(args@)),
{
    match arg_str(args, 0) {
        Some(path) => {
            let chars = chars_of(path);
            Ok(Value::Bool(chars.len() > 0 && chars[0] == '/'))
        },
        None => Err(HostError::host_function("path.is_absolute: missing path argument")),
    }
}

} // verus!
