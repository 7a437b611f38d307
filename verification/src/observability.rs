//! Observability: configuration, spans and structured log entries.
//!
//! The clock is read by the embedding program; the functions here take its
//! readings as arguments.

use vstd::prelude::*;
use crate::collections::StringMap;
use crate::json::{hex_char, hex_digit};
use crate::text::{copy_str, string_from_chars};
use crate::time::duration::Duration;
use crate::value::{entry_views, set_entry, with_entry, Value, ValueView};

verus! {

/// Configuration of the observability features.
#[derive(Debug, Clone)]
pub struct ObservabilityConfig {
    /// Service name for tracing.
    pub service_name: String,
    /// Service version.
    pub service_version: String,
    /// Further attributes of the resource.
    pub resource_attributes: StringMap,
    /// Whether tracing is enabled.
    pub tracing_enabled: bool,
    /// Whether metrics are enabled.
    pub metrics_enabled: bool,
}

impl ObservabilityConfig {
    /// A configuration for the service `service_name`: version `0.1.0`, no
    /// attributes, tracing and metrics enabled.
    pub fn new(service_name: &str) -> (r: Self)
        ensures
            r.service_name@ == service_name@,
            r.service_version@ == "0.1.0"@,
            r.resource_attributes@ == Map::<Seq<char>, Seq<char>>::empty(),
            r.tracing_enabled,
            r.metrics_enabled,
    {
        ObservabilityConfig {
            service_name: copy_str(service_name),
            service_version: copy_str("0.1.0"),
            resource_attributes: StringMap::new(),
            tracing_enabled: true,
            metrics_enabled: true,
        }
    }

    /// Sets the service version.
    pub fn with_version(self, version: &str) -> (r: Self)
        ensures
            r.service_version@ == version@,
            r.service_name == self.service_name,
            r.resource_attributes == self.resource_attributes,
            r.tracing_enabled == self.tracing_enabled,
            r.metrics_enabled == self.metrics_enabled,
    {
        ObservabilityConfig {
            service_name: self.service_name,
            service_version: copy_str(version),
            resource_attributes: self.resource_attributes,
            tracing_enabled: self.tracing_enabled,
            metrics_enabled: self.metrics_enabled,
        }
    }

    /// Adds an attribute of the resource.
    pub fn with_attribute(self, key: &str, value: &str) -> (r: Self)
        ensures
            r.resource_attributes@ == self.resource_attributes@.insert(key@, value@),
            r.service_name == self.service_name,
            r.service_version == self.service_version,
            r.tracing_enabled == self.tracing_enabled,
            r.metrics_enabled == self.metrics_enabled,
    {
        ObservabilityConfig {
            service_name: self.service_name,
            service_version: self.service_version,
            resource_attributes: self.resource_attributes.insert(copy_str(key), copy_str(value)),
            tracing_enabled: self.tracing_enabled,
            metrics_enabled: self.metrics_enabled,
        }
    }

    /// Enables or disables tracing.
    pub fn with_tracing(self, enabled: bool) -> (r: Self)
        ensures
            r == (ObservabilityConfig { tracing_enabled: enabled, ..self }),
    {
        ObservabilityConfig { tracing_enabled: enabled, ..self }
    }

    /// Enables or disables metrics.
    pub fn with_metrics(self, enabled: bool) -> (r: Self)
        ensures
            r == (ObservabilityConfig { metrics_enabled: enabled, ..self }),
    {
        ObservabilityConfig { metrics_enabled: enabled, ..self }
    }
}

impl Default for ObservabilityConfig {
    fn default() -> (r: Self)
        ensures
            r.service_name@ == "fusabi-app"@,
            r.service_version@ == "0.1.0"@,
            r.resource_attributes@ == Map::<Seq<char>, Seq<char>>::empty(),
            r.tracing_enabled,
            r.metrics_enabled,
    {
        ObservabilityConfig::new("fusabi-app")
    }
}

/// The multiplier of the generator of identifiers.
pub const MULTIPLIER: u64 = 6364136223846793005;

/// The state of the generator after the state `state`.
pub open spec fn next_state(state: u64) -> u64 {
    ((state as int * MULTIPLIER as int + 1) % 0x1_0000_0000_0000_0000) as u64
}

/// The state of the generator after `steps` steps from `seed`.
pub open spec fn state_after(seed: u64, steps: nat) -> u64
    decreases steps,
{
    if steps == 0 {
        seed
    } else {
        next_state(state_after(seed, (steps - 1) as nat))
    }
}

/// The identifier of `bytes` bytes that the generator gives from `seed`:
/// for each step the highest byte of the state, as two hexadecimal digits.
pub open spec fn generated_id(seed: u64, bytes: nat) -> Seq<char>
    decreases bytes,
{
    if bytes == 0 {
        Seq::empty()
    } else {
        let top = state_after(seed, bytes) as int / 0x100_0000_0000_0000;
        generated_id(seed, (bytes - 1) as nat).push(hex_digit(top / 16)).push(hex_digit(top % 16))
    }
}

/// An identifier of `bytes` bytes in hexadecimal, from the seed `seed`.
/// The identifiers are not fit for cryptographic use.
pub fn generate_id(bytes: usize, seed: u64) -> (r: String)
    ensures
        r@ == generated_id(seed, bytes as nat),
        r@.len() == 2 * bytes,
{
    let mut out: Vec<char> = Vec::new();
    let mut state: u64 = seed;
    let mut i: usize = 0;
    while i < bytes
        invariant
            i <= bytes,
            state == state_after(seed, i as nat),
            out@ == generated_id(seed, i as nat),
            out@.len() == 2 * i,
        decreases bytes - i,
    {
        let wide: u128 = (state as u128) * (MULTIPLIER as u128) + 1;
        state = (wide % 0x1_0000_0000_0000_0000) as u64;
        let top: u8 = (state / 0x100_0000_0000_0000) as u8;
        out.push(hex_char(top / 16));
        out.push(hex_char(top % 16));
        i += 1;
    }
    string_from_chars(&out)
}

/// Span context for distributed tracing.
#[derive(Debug, Clone)]
pub struct SpanContext {
    /// Trace ID.
    pub trace_id: String,
    /// Span ID.
    pub span_id: String,
    /// Span name.
    pub name: String,
    /// Start time in nanoseconds since the epoch.
    pub start_time_ns: u64,
    /// Attributes of the span.
    pub attributes: Vec<(String, Value)>,
}

impl SpanContext {
    /// A span that starts at `start_time_ns`, with a trace identifier of
    /// sixteen bytes from `trace_seed` and a span identifier of eight bytes
    /// from `span_seed`.
    pub fn new(name: &str, start_time_ns: u64, trace_seed: u64, span_seed: u64) -> (r: Self)
        ensures
            r.name@ == name@,
            r.start_time_ns == start_time_ns,
            r.trace_id@ == generated_id(trace_seed, 16),
            r.span_id@ == generated_id(span_seed, 8),
            entry_views(r.attributes@) == Seq::<(Seq<char>, ValueView)>::empty(),
    {
        let attributes: Vec<(String, Value)> = Vec::new();
        assert(entry_views(attributes@) =~= Seq::<(Seq<char>, ValueView)>::empty());
        SpanContext {
            trace_id: generate_id(16, trace_seed),
            span_id: generate_id(8, span_seed),
            name: copy_str(name),
            start_time_ns,
            attributes,
        }
    }

    /// Sets an attribute of the span.
    pub fn with_attribute(self, key: &str, value: Value) -> (r: Self)
        ensures
            entry_views(r.attributes@) == with_entry(entry_views(self.attributes@), key@, value@),
            r.trace_id == self.trace_id,
            r.span_id == self.span_id,
            r.name == self.name,
            r.start_time_ns == self.start_time_ns,
    {
        let mut attributes = self.attributes;
        set_entry(&mut attributes, key, value);
        SpanContext {
            trace_id: self.trace_id,
            span_id: self.span_id,
            name: self.name,
            start_time_ns: self.start_time_ns,
            attributes,
        }
    }

    /// The time since the span started, at the time `now_ns`; nothing where
    /// the clock went backwards.
    pub fn elapsed(&self, now_ns: u64) -> (r: Duration)
        ensures
            r.total_nanos() == if now_ns >= self.start_time_ns {
                now_ns - self.start_time_ns
            } else {
                0
            },
            r.normal(),
    {
        let passed: u64 = if now_ns >= self.start_time_ns {
            now_ns - self.start_time_ns
        } else {
            0
        };
        Duration::from_nanos(passed)
    }
}

/// Log level for structured logging.
#[derive(Debug, Clone, Copy, PartialEq, Eq, Structural)]
pub enum LogLevel {
    /// Trace level.
    Trace,
    /// Debug level.
    Debug,
    /// Info level.
    Info,
    /// Warning level.
    Warn,
    /// Error level.
    Error,
}

impl LogLevel {
    /// The name of the level in upper case.
    pub open spec fn name_text(self) -> Seq<char> {
        match self {
            LogLevel::Trace => "TRACE"@,
            LogLevel::Debug => "DEBUG"@,
            LogLevel::Info => "INFO"@,
            LogLevel::Warn => "WARN"@,
            LogLevel::Error => "ERROR"@,
        }
    }

    /// The name of the level in upper case.
    pub fn as_str(&self) -> (r: &'static str)
        ensures
            r@ == self.name_text(),
    {
        match self {
            LogLevel::Trace => "TRACE",
            LogLevel::Debug => "DEBUG",
            LogLevel::Info => "INFO",
            LogLevel::Warn => "WARN",
            LogLevel::Error => "ERROR",
        }
    }
}

/// Structured log entry.
#[derive(Debug, Clone)]
pub struct LogEntry {
    /// Log level.
    pub level: LogLevel,
    /// Log message.
    pub message: String,
    /// Structured fields.
    pub fields: Vec<(String, Value)>,
    /// Timestamp in nanoseconds since the epoch.
    pub timestamp_ns: u64,
}

impl LogEntry {
    /// A log entry without fields, written at `timestamp_ns`.
    pub fn new(level: LogLevel, message: &str, timestamp_ns: u64) -> (r: Self)
        ensures
            r.level == level,
            r.message@ == message@,
            r.timestamp_ns == timestamp_ns,
            entry_views(r.fields@) == Seq::<(Seq<char>, ValueView)>::empty(),
    {
        let fields: Vec<(String, Value)> = Vec::new();
        assert(entry_views(fields@) =~= Seq::<(Seq<char>, ValueView)>::empty());
        LogEntry { level, message: copy_str(message), fields, timestamp_ns }
    }

    /// Sets a field of the entry.
    pub fn with_field(self, key: &str, value: Value) -> (r: Self)
        ensures
            entry_views(r.fields@) == with_entry(entry_views(self.fields@), key@, value@),
            r.level == self.level,
            r.message == self.message,
            r.timestamp_ns == self.timestamp_ns,
    {
        let mut fields = self.fields;
        set_entry(&mut fields, key, value);
        LogEntry {
            level: self.level,
            message: self.message,
            fields,
            timestamp_ns: self.timestamp_ns,
        }
    }
}

} // verus!
