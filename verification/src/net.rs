//! Network module: the checks before a request, and the shape of requests
//! and responses.

use vstd::prelude::*;
use crate::collections::StringMap;
use crate::error::{Error, ErrorKind, HostError, HostErrorKind};
use crate::safety::SafetyConfig;
use crate::text::{
    chars_of, concat, find_char, index_of_from, slice_chars, starts_with, string_from_chars,
};
use crate::time::duration::Duration;
use crate::value::{
    arg_str, entry_views, outcome, push_entry, text_arg, views_of, HostOutcome, Value, ValueView,
};

verus! {

/// The URL without its scheme, where the scheme is `https://` or `http://`.
pub open spec fn without_scheme(url: Seq<char>) -> Seq<char> {
    if "https://"@.is_prefix_of(url) {
        url.skip("https://"@.len() as int)
    } else if "http://"@.is_prefix_of(url) {
        url.skip("http://"@.len() as int)
    } else {
        url
    }
}

/// The text before the first `c` (all of it when there is none).
pub open spec fn before_first(s: Seq<char>, c: char) -> Seq<char> {
    s.take(index_of_from(s, c, 0))
}

/// The host of a URL: what stands after the scheme, before the first slash
/// and before the first colon.
pub open spec fn host_part(url: Seq<char>) -> Seq<char> {
    before_first(before_first(without_scheme(url), '/'), ':')
}

/// The host of a URL, or the error for a URL without one: an invalid
/// argument.
pub open spec fn extracted_host(url: Seq<char>) -> Result<Seq<char>, (ErrorKind, Seq<char>)> {
    if host_part(url).len() == 0 {
        Err((ErrorKind::InvalidArgument, "invalid URL: no host"@))
    } else {
        Ok(host_part(url))
    }
}

/// Extracts the host from a URL.
pub fn extract_host(url: &str) -> (r: Result<String, Error>)
    ensures
        match extracted_host(url@) {
            Ok(host) => r matches Ok(h) && h@ == host,
            Err(e) => r matches Err(x) && (x.kind(), x.detail()) == e,
        },
{
    let all = chars_of(url);
    let https = chars_of("https://");
    let http = chars_of("http://");
    let rest = if starts_with(&all, &https) {
        let r = slice_chars(&all, https.len(), all.len());
        assert(r@ =~= url@.skip("https://"@.len() as int));
        r
    } else if starts_with(&all, &http) {
        let r = slice_chars(&all, http.len(), all.len());
        assert(r@ =~= url@.skip("http://"@.len() as int));
        r
    } else {
        let r = slice_chars(&all, 0, all.len());
        assert(r@ =~= url@);
        r
    };
    assert(rest@ == without_scheme(url@));
    let slash = find_char(&rest, '/', 0);
    let authority = slice_chars(&rest, 0, slash);
    assert(authority@ =~= before_first(rest@, '/'));
    let colon = find_char(&authority, ':', 0);
    let host = slice_chars(&authority, 0, colon);
    assert(host@ =~= before_first(authority@, ':'));
    if host.len() == 0 {
        Err(Error::invalid_argument("invalid URL: no host"))
    } else {
        Ok(string_from_chars(&host))
    }
}

/// The response that the simulated transport gives: a status, a body and
/// no headers.
pub open spec fn simulated_response(status: i64, body: Seq<char>) -> ValueView {
    ValueView::Dict(
        seq![
            ("status"@, ValueView::Int(status)),
            ("body"@, ValueView::Text(body)),
            ("headers"@, ValueView::Dict(Seq::empty())),
        ],
    )
}

/// What stands between a request and the transport: the URL must be there
/// and must have a host, and the safety policy must allow that host. A URL
/// without a host is refused before the policy is asked. `missing` is the
/// message for a request without a URL.
pub open spec fn request_verdict(
    safety: SafetyConfig,
    args: Seq<ValueView>,
    missing: Seq<char>,
) -> Option<(HostErrorKind, Seq<char>)> {
    match text_arg(args, 0) {
        None => Some((HostErrorKind::HostFunction, missing)),
        Some(url) => match extracted_host(url) {
            Err((kind, detail)) => Some(
                (HostErrorKind::HostFunction, Error::prefix_of(kind) + detail),
            ),
            Ok(host) => match safety.hosts.verdict(host) {
                Some((kind, detail)) => Some(
                    (HostErrorKind::HostFunction, Error::prefix_of(kind) + detail),
                ),
                None => None,
            },
        },
    }
}

/// What `net.get` gives for `args`.
pub open spec fn http_get_result(safety: SafetyConfig, args: Seq<ValueView>) -> HostOutcome {
    match request_verdict(safety, args, "net.get: missing URL argument"@) {
        Some(e) => Err(e),
        None => Ok(simulated_response(200, "Response from "@ + text_arg(args, 0)->0)),
    }
}

/// What `net.post` gives for `args`.
pub open spec fn http_post_result(safety: SafetyConfig, args: Seq<ValueView>) -> HostOutcome {
    match request_verdict(safety, args, "net.post: missing URL argument"@) {
        Some(e) => Err(e),
        None => Ok(simulated_response(200, "OK"@)),
    }
}

fn checked_url<'a>(safety: &SafetyConfig, args: &'a [Value], missing: &str) -> (r: Result<
    &'a str,
    HostError,
>)
    ensures
        match request_verdict(*safety, views_of(args@), missing@) {
            Some(e) => r matches Err(x) && x@ == e,
            None => r matches Ok(url) && text_arg(views_of(args@), 0) == Some(url@),
        },
{
    let url = match arg_str(args, 0) {
        Some(u) => u,
        None => {
            return Err(HostError::host_function(missing));
        },
    };
    let host = match extract_host(url) {
        Ok(h) => h,
        Err(e) => {
            return Err(HostError::from_error(&e));
        },
    };
    match safety.hosts.check(host.as_str()) {
        Ok(_) => Ok(url),
        Err(e) => Err(HostError::from_error(&e)),
    }
}

fn response(status: i64, body: String) -> (r: Value)
    ensures
        r@ == simulated_response(status, body@),
{
    let mut entries: Vec<(String, Value)> = Vec::new();
    assert(entry_views(entries@) =~= Seq::<(Seq<char>, ValueView)>::empty());
    push_entry(&mut entries, "status", Value::Int(status));
    push_entry(&mut entries, "body", Value::String(body));
    let headers: Vec<(String, Value)> = Vec::new();
    assert(entry_views(headers@) =~= Seq::<(Seq<char>, ValueView)>::empty());
    push_entry(&mut entries, "headers", Value::Dict(headers));
    let r = Value::Dict(entries);
    assert(r@ =~= simulated_response(status, body@)) by {
        assert(entry_views(entries@) =~= seq![
            ("status"@, ValueView::Int(status)),
            ("body"@, ValueView::Text(body@)),
            ("headers"@, ValueView::Dict(Seq::empty())),
        ]);
    }
    r
}

/// The timeout of a request: the module's timeout clamped to the maximum,
/// or the default of the safety policy where the module sets none.
pub fn effective_timeout(safety: &SafetyConfig, timeout: Option<Duration>) -> (r: Duration)
    ensures
        r == safety.resolved(timeout),
{
    safety.resolve_timeout(timeout)
}

/// `net.get`: a GET request to the URL in the first argument. The request
/// itself is simulated.
pub fn http_get(safety: &SafetyConfig, timeout: Option<Duration>, args: &[Value]) -> (r: Result<
    Value,
    HostError,
>)
    ensures
        outcome(r) == http_get_result(*safety, views_of(args@)),
{
    let url = match checked_url(safety, args, "net.get: missing URL argument") {
        Ok(u) => u,
        Err(e) => {
            return Err(e);
        },
    };
    let _timeout = effective_timeout(safety, timeout);
    Ok(response(200, concat("Response from ", url)))
}

/// `net.post`: a POST request to the URL in the first argument, with the
/// second argument as its body. The request itself is simulated.
pub fn http_post(safety: &SafetyConfig, timeout: Option<Duration>, args: &[Value]) -> (r: Result<
    Value,
    HostError,
>)
    ensures
        outcome(r) == http_post_result(*safety, views_of(args@)),
{
    match checked_url(safety, args, "net.post: missing URL argument") {
        Ok(_) => {},
        Err(e) => {
            return Err(e);
        },
    };
    let _timeout = effective_timeout(safety, timeout);
    Ok(response(200, "OK".to_owned()))
}

/// Options of an HTTP request.
#[derive(Debug, Clone)]
pub struct RequestOptions {
    /// Request headers.
    pub headers: StringMap,
    /// Request timeout.
    pub timeout: Option<Duration>,
    /// Whether redirects are followed.
    pub follow_redirects: bool,
    /// How many redirects are followed at most.
    pub max_redirects: usize,
}

impl RequestOptions {
    /// The options of a new request: no headers, thirty seconds, and up to
    /// ten redirects followed.
    pub fn new() -> (r: Self)
        ensures
            r.headers@ == Map::<Seq<char>, Seq<char>>::empty(),
            r.timeout == Some(Duration::from_secs_spec(30)),
            r.follow_redirects,
            r.max_redirects == 10,
    {
        RequestOptions {
            headers: StringMap::new(),
            timeout: Some(Duration::from_secs(30)),
            follow_redirects: true,
            max_redirects: 10,
        }
    }

    /// Adds a header.
    pub fn with_header(self, key: &str, value: &str) -> (r: Self)
        ensures
            r.headers@ == self.headers@.insert(key@, value@),
            r.timeout == self.timeout,
            r.follow_redirects == self.follow_redirects,
            r.max_redirects == self.max_redirects,
    {
        RequestOptions {
            headers: self.headers.insert(key.to_owned(), value.to_owned()),
            timeout: self.timeout,
            follow_redirects: self.follow_redirects,
            max_redirects: self.max_redirects,
        }
    }

    /// Sets the timeout.
    pub fn with_timeout(self, timeout: Duration) -> (r: Self)
        ensures
            r == (RequestOptions { timeout: Some(timeout), ..self }),
    {
        RequestOptions { timeout: Some(timeout), ..self }
    }

    /// Sets whether redirects are followed.
    pub fn with_follow_redirects(self, follow: bool) -> (r: Self)
        ensures
            r == (RequestOptions { follow_redirects: follow, ..self }),
    {
        RequestOptions { follow_redirects: follow, ..self }
    }
}

impl Default for RequestOptions {
    fn default() -> (r: Self)
        ensures
            r.headers@ == Map::<Seq<char>, Seq<char>>::empty(),
            r.timeout is None,
            !r.follow_redirects,
            r.max_redirects == 0,
    {
        RequestOptions {
            headers: StringMap::new(),
            timeout: None,
            follow_redirects: false,
            max_redirects: 0,
        }
    }
}

/// An HTTP response.
#[derive(Debug, Clone)]
pub struct Response {
    /// HTTP status code.
    pub status: u16,
    /// Response headers.
    pub headers: StringMap,
    /// Response body.
    pub body: String,
}

/// Header entries as dictionary entries with text values.
pub open spec fn header_entries(pairs: Seq<(Seq<char>, Seq<char>)>) -> Seq<(Seq<char>, ValueView)> {
    pairs.map_values(|p: (Seq<char>, Seq<char>)| (p.0, ValueView::Text(p.1)))
}

impl Response {
    /// Whether the status is one of success, from 200 to 299.
    pub fn is_success(&self) -> (r: bool)
        ensures
            r == (200 <= self.status < 300),
    {
        200 <= self.status && self.status < 300
    }

    /// The response as a value: a dictionary of the status, the body and
    /// the headers.
    pub fn to_value(&self) -> (r: Value)
        ensures
            r@ == ValueView::Dict(
                seq![
                    ("status"@, ValueView::Int(self.status as i64)),
                    ("body"@, ValueView::Text(self.body@)),
                    ("headers"@, ValueView::Dict(header_entries(self.headers.pairs()))),
                ],
            ),
    {
        let mut headers: Vec<(String, Value)> = Vec::new();
        assert(entry_views(headers@) =~= Seq::<(Seq<char>, ValueView)>::empty());
        let n = self.headers.len();
        let mut i: usize = 0;
        while i < n
            invariant
                n == self.headers.pairs().len(),
                i <= n,
                entry_views(headers@) == header_entries(self.headers.pairs()).take(i as int),
            decreases n - i,
        {
            let value = Value::String(self.headers.value_at(i).clone());
            push_entry(&mut headers, self.headers.key_at(i).as_str(), value);
            assert(entry_views(headers@) =~= header_entries(self.headers.pairs()).take(i + 1));
            i += 1;
        }
        assert(header_entries(self.headers.pairs()).take(n as int) =~= header_entries(
            self.headers.pairs(),
        ));
        let mut entries: Vec<(String, Value)> = Vec::new();
        assert(entry_views(entries@) =~= Seq::<(Seq<char>, ValueView)>::empty());
        push_entry(&mut entries, "status", Value::Int(self.status as i64));
        push_entry(&mut entries, "body", Value::String(self.body.clone()));
        push_entry(&mut entries, "headers", Value::Dict(headers));
        let r = Value::Dict(entries);
        assert(entry_views(entries@) =~= seq![
            ("status"@, ValueView::Int(self.status as i64)),
            ("body"@, ValueView::Text(self.body@)),
            ("headers"@, ValueView::Dict(header_entries(self.headers.pairs()))),
        ]);
        r
    }
}

} // verus!
