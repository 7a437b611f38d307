//! Enhanced HTTP client: requests with options, and streams for large
//! transfers. The transport is simulated.

use vstd::prelude::*;
use crate::error::{HostError, HostErrorKind};
use crate::safety::SafetyConfig;
use crate::text::{concat, copy_str};
use crate::value::{
    arg, arg_at, arg_int, arg_str, dict_get, entry_views, int_arg, lemma_entry_views, lookup,
    outcome, push_entry, text_arg, views_of, HostOutcome, Value, ValueView,
};

verus! {

/// The settings of a request, as its options give them.
#[derive(Debug)]
pub struct RequestSettings {
    /// Timeout in milliseconds.
    pub timeout: i64,
    /// Number of retries.
    pub retries: i64,
    /// Delay between retries in milliseconds.
    pub retry_delay: i64,
    /// The body of the request.
    pub body: Option<String>,
    /// How many headers the request has.
    pub header_count: usize,
}

/// The entries of the dictionary at position `i` of the arguments; none
/// where there is no dictionary.
pub open spec fn entries_arg(args: Seq<ValueView>, i: int) -> Seq<(Seq<char>, ValueView)> {
    match arg_at(args, i) {
        Some(ValueView::Dict(m)) => m,
        _ => Seq::empty(),
    }
}

/// The integer under `key`, or `default` where there is none.
pub open spec fn int_option(
    options: Seq<(Seq<char>, ValueView)>,
    key: Seq<char>,
    default: i64,
) -> i64 {
    match lookup(options, key) {
        Some(ValueView::Int(i)) => i,
        _ => default,
    }
}

/// The text under `key`, where there is one.
pub open spec fn text_option(options: Seq<(Seq<char>, ValueView)>, key: Seq<char>) -> Option<
    Seq<char>,
> {
    match lookup(options, key) {
        Some(ValueView::Text(s)) => Some(s),
        _ => None,
    }
}

fn option_int(options: Option<&Vec<(String, Value)>>, key: &str, default: i64) -> (r: i64)
    ensures
        r == int_option(
            match options {
                Some(m) => entry_views(m@),
                None => Seq::empty(),
            },
            key@,
            default,
        ),
{
    match options {
        Some(m) => match dict_get(m, key) {
            Some(v) => match v.as_int() {
                Some(i) => i,
                None => default,
            },
            None => default,
        },
        None => default,
    }
}

fn entries_of<'a>(args: &'a [Value], i: usize) -> (r: Option<&'a Vec<(String, Value)>>)
    ensures
        entries_arg(views_of(args@), i as int) == match r {
            Some(m) => entry_views(m@),
            None => Seq::empty(),
        },
{
    match arg(args, i) {
        Some(v) => v.as_map(),
        None => None,
    }
}

/// The settings that the options of a request give: the options are the
/// fourth argument, the headers the third; a timeout of 30000
/// milliseconds, no retries and a delay of 1000 milliseconds where the
/// options say nothing else.
pub fn request_settings(args: &[Value]) -> (r: RequestSettings)
    ensures
        r.timeout == int_option(entries_arg(views_of(args@), 3), "timeout"@, 30000),
        r.retries == int_option(entries_arg(views_of(args@), 3), "retries"@, 0),
        r.retry_delay == int_option(entries_arg(views_of(args@), 3), "retry_delay"@, 1000),
        match text_option(entries_arg(views_of(args@), 3), "body"@) {
            Some(text) => r.body matches Some(b) && b@ == text,
            None => r.body is None,
        },
        r.header_count == entries_arg(views_of(args@), 2).len(),
{
    let headers = entries_of(args, 2);
    let options = entries_of(args, 3);
    let header_count = match headers {
        Some(m) => {
            proof {
                lemma_entry_views(m@);
            }
            m.len()
        },
        None => 0,
    };
    let body = match options {
        Some(m) => match dict_get(m, "body") {
            Some(v) => match v.as_str() {
                Some(s) => Some(copy_str(s)),
                None => None,
            },
            None => None,
        },
        None => None,
    };
    RequestSettings {
        timeout: option_int(options, "timeout", 30000),
        retries: option_int(options, "retries", 0),
        retry_delay: option_int(options, "retry_delay", 1000),
        body,
        header_count,
    }
}

/// What `net_http.request` gives for `args`: the simulated response to a
/// request with a method and a URL.
pub open spec fn request_result(args: Seq<ValueView>) -> HostOutcome {
    match text_arg(args, 0) {
        None => Err((HostErrorKind::HostFunction, "net_http.request: missing method argument"@)),
        Some(_) => match text_arg(args, 1) {
            None => Err((HostErrorKind::HostFunction, "net_http.request: missing url argument"@)),
            Some(url) => Ok(
                ValueView::Dict(
                    seq![
                        ("status"@, ValueView::Int(200)),
                        ("body"@, ValueView::Text("Response from "@ + url)),
                        (
                            "headers"@,
                            ValueView::Dict(
                                seq![("content-type"@, ValueView::Text("application/json"@))],
                            ),
                        ),
                    ],
                ),
            ),
        },
    }
}

/// `net_http.request`: a request with the method in the first argument to
/// the URL in the second, with the headers in the third and the options in
/// the fourth.
pub fn request(args: &[Value]) -> (r: Result<Value, HostError>)
    ensures
        outcome(r) == request_result(views_of(args@)),
{
    let _method = match arg_str(args, 0) {
        Some(m) => m,
        None => {
            return Err(HostError::host_function("net_http.request: missing method argument"));
        },
    };
    let url = match arg_str(args, 1) {
        Some(u) => u,
        None => {
            return Err(HostError::host_function("net_http.request: missing url argument"));
        },
    };
    let _settings = request_settings(args);
    let mut response_headers: Vec<(String, Value)> = Vec::new();
    assert(entry_views(response_headers@) =~= Seq::<(Seq<char>, ValueView)>::empty());
    push_entry(&mut response_headers, "content-type", Value::string("application/json"));
    assert(entry_views(response_headers@) =~= seq![
        ("content-type"@, ValueView::Text("application/json"@)),
    ]);
    let mut response: Vec<(String, Value)> = Vec::new();
    assert(entry_views(response@) =~= Seq::<(Seq<char>, ValueView)>::empty());
    push_entry(&mut response, "status", Value::Int(200));
    push_entry(&mut response, "body", Value::String(concat("Response from ", url)));
    push_entry(&mut response, "headers", Value::Dict(response_headers));
    assert(entry_views(response@) =~= seq![
        ("status"@, ValueView::Int(200)),
        ("body"@, ValueView::Text("Response from "@ + url@)),
        (
            "headers"@,
            ValueView::Dict(seq![("content-type"@, ValueView::Text("application/json"@))]),
        ),
    ]);
    Ok(Value::Dict(response))
}

/// What `net_http.download_stream` gives for `args`: the handle of the
/// simulated stream, 1001.
pub open spec fn download_stream_result(args: Seq<ValueView>) -> HostOutcome {
    match text_arg(args, 0) {
        None => Err(
            (HostErrorKind::HostFunction, "net_http.download_stream: missing url argument"@),
        ),
        Some(_) => Ok(ValueView::Int(1001)),
    }
}

/// `net_http.download_stream`: starts the download of the URL in the first
/// argument and gives the handle of its stream.
pub fn download_stream(args: &[Value]) -> (r: Result<Value, HostError>)
    ensures
        outcome(r) == download_stream_result(views_of(args@)),
{
    match arg_str(args, 0) {
        Some(_) => Ok(Value::Int(1001)),
        None => Err(HostError::host_function("net_http.download_stream: missing url argument")),
    }
}

/// What `net_http.upload_stream` gives for `args`.
pub open spec fn upload_stream_result(args: Seq<ValueView>) -> HostOutcome {
    match text_arg(args, 0) {
        None => Err((HostErrorKind::HostFunction, "net_http.upload_stream: missing url argument"@)),
        Some(_) => match int_arg(args, 1) {
            None => Err(
                (HostErrorKind::HostFunction, "net_http.upload_stream: missing stream handle"@),
            ),
            Some(_) => Ok(
                ValueView::Dict(
                    seq![
                        ("status"@, ValueView::Int(201)),
                        ("body"@, ValueView::Text("Upload complete"@)),
                    ],
                ),
            ),
        },
    }
}

/// `net_http.upload_stream`: uploads the stream of the handle in the
/// second argument to the URL in the first.
pub fn upload_stream(args: &[Value]) -> (r: Result<Value, HostError>)
    ensures
        outcome(r) == upload_stream_result(views_of(args@)),
{
    match arg_str(args, 0) {
        Some(_) => {},
        None => {
            return Err(HostError::host_function("net_http.upload_stream: missing url argument"));
        },
    }
    match arg_int(args, 1) {
        Some(_) => {},
        None => {
            return Err(HostError::host_function("net_http.upload_stream: missing stream handle"));
        },
    }
    let mut response: Vec<(String, Value)> = Vec::new();
    assert(entry_views(response@) =~= Seq::<(Seq<char>, ValueView)>::empty());
    push_entry(&mut response, "status", Value::Int(201));
    push_entry(&mut response, "body", Value::string("Upload complete"));
    assert(entry_views(response@) =~= seq![
        ("status"@, ValueView::Int(201)),
        ("body"@, ValueView::Text("Upload complete"@)),
    ]);
    Ok(Value::Dict(response))
}

/// What `net_http.read_stream_chunk` gives for `args`.
pub open spec fn read_stream_chunk_result(args: Seq<ValueView>) -> HostOutcome {
    match int_arg(args, 0) {
        None => Err(
            (HostErrorKind::HostFunction, "net_http.read_stream_chunk: missing handle argument"@),
        ),
        Some(_) => Ok(ValueView::Text("Mock chunk data"@)),
    }
}

/// `net_http.read_stream_chunk`: the next chunk of the stream of the handle
/// in the first argument.
pub fn read_stream_chunk(args: &[Value]) -> (r: Result<Value, HostError>)
    ensures
        outcome(r) == read_stream_chunk_result(views_of(args@)),
{
    match arg_int(args, 0) {
        Some(_) => Ok(Value::string("Mock chunk data")),
        None => Err(
            HostError::host_function("net_http.read_stream_chunk: missing handle argument"),
        ),
    }
}

/// What `net_http.close_stream` gives for `args`.
pub open spec fn close_stream_result(args: Seq<ValueView>) -> HostOutcome {
    match int_arg(args, 0) {
        None => Err(
            (HostErrorKind::HostFunction, "net_http.close_stream: missing handle argument"@),
        ),
        Some(_) => Ok(ValueView::Null),
    }
}

/// `net_http.close_stream`: closes the stream of the handle in the first
/// argument.
pub fn close_stream(args: &[Value]) -> (r: Result<Value, HostError>)
    ensures
        outcome(r) == close_stream_result(views_of(args@)),
{
    match arg_int(args, 0) {
        Some(_) => Ok(Value::Null),
        None => Err(HostError::host_function("net_http.close_stream: missing handle argument")),
    }
}

/// Checks a request against the safety policy. Every request passes: the
/// requests of this module are not held to the host allowlist.
pub fn check_request_safety(_safety: &SafetyConfig, _url: &str) -> (r: Result<(), HostError>)
    ensures
        r is Ok,
{
    Ok(())
}

} // verus!
