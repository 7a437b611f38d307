//! Process module: the checks before a command runs. Running the command
//! is simulated.

use vstd::prelude::*;
use crate::collections::StringMap;
use crate::error::{Error, HostError, HostErrorKind};
use crate::safety::SafetyConfig;
use crate::text::{chars_of, push_str, string_from_chars};
use crate::time::duration::Duration;
use crate::value::{
    arg_str, entry_views, lemma_views_of, outcome, push_entry, text_arg, views_of, HostOutcome,
    Value, ValueView,
};

verus! {

/// The texts among the first `n` arguments after the command, each with a
/// space before it.
pub open spec fn spaced_texts(args: Seq<ValueView>, n: int) -> Seq<char>
    decreases n,
{
    if n <= 1 || n > args.len() {
        Seq::empty()
    } else {
        match args[n - 1].as_text() {
            Some(t) => spaced_texts(args, n - 1) + seq![' '] + t,
            None => spaced_texts(args, n - 1),
        }
    }
}

/// The command line that is reported: the command, a space, and the text
/// arguments separated by spaces.
pub open spec fn command_line(command: Seq<char>, args: Seq<ValueView>) -> Seq<char> {
    let rest = spaced_texts(args, args.len() as int);
    if rest.len() == 0 {
        command + seq![' ']
    } else {
        command + rest
    }
}

/// What `process.exec` gives for `args`.
pub open spec fn exec_result(safety: SafetyConfig, args: Seq<ValueView>) -> HostOutcome {
    match text_arg(args, 0) {
        None => Err((HostErrorKind::HostFunction, "exec: missing command argument"@)),
        Some(command) => match safety.command_verdict(command) {
            Some((kind, detail)) => Err(
                (HostErrorKind::HostFunction, Error::prefix_of(kind) + detail),
            ),
            None => Ok(
                ValueView::Dict(
                    seq![
                        ("stdout"@, ValueView::Text("Executed: "@ + command_line(command, args))),
                        ("stderr"@, ValueView::Text(Seq::empty())),
                        ("exit_code"@, ValueView::Int(0)),
                    ],
                ),
            ),
        },
    }
}

/// `process.exec`: runs the command in the first argument with the text
/// arguments that follow it, after the safety policy has allowed it.
pub fn exec(safety: &SafetyConfig, timeout: Option<Duration>, args: &[Value]) -> (r: Result<
    Value,
    HostError,
>)
    ensures
        outcome(r) == exec_result(*safety, views_of(args@)),
{
    let command = match arg_str(args, 0) {
        Some(c) => c,
        None => {
            return Err(HostError::host_function("exec: missing command argument"));
        },
    };
    match safety.check_execute(command) {
        Ok(_) => {},
        Err(e) => {
            return Err(HostError::from_error(&e));
        },
    }
    let _timeout = safety.resolve_timeout(timeout);
    let ghost items = views_of(args@);
    proof {
        lemma_views_of(args@);
    }
    let mut rest: Vec<char> = Vec::new();
    let mut i: usize = 1;
    assert(spaced_texts(items, 1) =~= Seq::<char>::empty());
    while i < args.len()
        invariant
            1 <= i <= args.len(),
            items == views_of(args@),
            items.len() == args@.len(),
            forall|k: int| 0 <= k < args@.len() ==> (#[trigger] items[k]) == args@[k]@,
            rest@ == spaced_texts(items, i as int),
        decreases args.len() - i,
    {
        match args[i].as_str() {
            Some(t) => {
                rest.push(' ');
                push_str(&mut rest, t);
            },
            None => {},
        }
        i += 1;
    }
    let mut line = chars_of("Executed: ");
    push_str(&mut line, command);
    if rest.len() == 0 {
        line.push(' ');
    } else {
        crate::text::push_all(&mut line, &rest);
    }
    assert(line@ =~= "Executed: "@ + command_line(command@, items));
    let mut entries: Vec<(String, Value)> = Vec::new();
    assert(entry_views(entries@) =~= Seq::<(Seq<char>, ValueView)>::empty());
    push_entry(&mut entries, "stdout", Value::String(string_from_chars(&line)));
    push_entry(&mut entries, "stderr", Value::String(String::new()));
    push_entry(&mut entries, "exit_code", Value::Int(0));
    assert(entry_views(entries@) =~= seq![
        ("stdout"@, ValueView::Text("Executed: "@ + command_line(command@, items))),
        ("stderr"@, ValueView::Text(Seq::empty())),
        ("exit_code"@, ValueView::Int(0)),
    ]);
    Ok(Value::Dict(entries))
}

/// What `process.spawn` gives for `args`.
pub open spec fn spawn_result(args: Seq<ValueView>) -> HostOutcome {
    match text_arg(args, 0) {
        None => Err((HostErrorKind::HostFunction, "spawn: missing command argument"@)),
        Some(command) => Ok(
            ValueView::Dict(
                seq![("pid"@, ValueView::Int(12345)), ("command"@, ValueView::Text(command))],
            ),
        ),
    }
}

/// `process.spawn`: starts the command in the first argument without
/// waiting for it. The process is simulated.
pub fn spawn(args: &[Value]) -> (r: Result<Value, HostError>)
    ensures
        outcome(r) == spawn_result(views_of(args@)),
{
    let command = match arg_str(args, 0) {
        Some(c) => c,
        None => {
            return Err(HostError::host_function("spawn: missing command argument"));
        },
    };
    let mut entries: Vec<(String, Value)> = Vec::new();
    assert(entry_views(entries@) =~= Seq::<(Seq<char>, ValueView)>::empty());
    push_entry(&mut entries, "pid", Value::Int(12345));
    push_entry(&mut entries, "command", Value::string(command));
    assert(entry_views(entries@) =~= seq![
        ("pid"@, ValueView::Int(12345)),
        ("command"@, ValueView::Text(command@)),
    ]);
    Ok(Value::Dict(entries))
}

/// Options for running a process.
#[derive(Debug, Clone)]
pub struct ExecOptions {
    /// Working directory.
    pub cwd: Option<String>,
    /// Environment variables.
    pub env: StringMap,
    /// Timeout.
    pub timeout: Option<Duration>,
    /// Whether the standard output is captured.
    pub capture_stdout: bool,
    /// Whether the standard error is captured.
    pub capture_stderr: bool,
}

impl Default for ExecOptions {
    fn default() -> (r: Self)
        ensures
            r.cwd is None,
            r.env@ == Map::<Seq<char>, Seq<char>>::empty(),
            r.timeout == Some(Duration::from_secs_spec(30)),
            r.capture_stdout,
            r.capture_stderr,
    {
        ExecOptions {
            cwd: None,
            env: StringMap::new(),
            timeout: Some(Duration::from_secs(30)),
            capture_stdout: true,
            capture_stderr: true,
        }
    }
}

} // verus!
