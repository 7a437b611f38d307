//! Time module: timestamps, sleeping and a simple rendering of dates.
//!
//! The clock is read and the sleeping is done by the embedding program; the
//! functions here take what the clock showed and say how long to sleep.

pub mod duration;

use vstd::prelude::*;
use crate::error::{HostError, HostErrorKind};
use crate::text::{concat3, decimal_padded, push_decimal_padded, string_from_chars};
use crate::time::duration::Duration;
use crate::value::{
    arg_int, arg_str, int_arg, outcome, text_arg, views_of, HostOutcome, Value, ValueView,
};

verus! {

/// The signed integer of 64 bits with the same low 64 bits as `n`.
pub open spec fn wrapped(n: nat) -> i64 {
    let low = n % 0x1_0000_0000_0000_0000;
    if low < 0x8000_0000_0000_0000 {
        low as i64
    } else {
        (low - 0x1_0000_0000_0000_0000) as i64
    }
}

fn wrap_u64(n: u64) -> (r: i64)
    ensures
        r == wrapped(n as nat),
{
    if n < 0x8000_0000_0000_0000 {
        n as i64
    } else {
        let high: u64 = n - 0x8000_0000_0000_0000;
        (high as i64) + i64::MIN
    }
}

/// `time.now`: the whole seconds since the epoch that the clock showed;
/// zero where the clock stood before the epoch.
pub fn now(since_epoch: Option<Duration>) -> (r: Value)
    ensures
        r@ == ValueView::Int(
            match since_epoch {
                Some(d) => wrapped(d.secs_part()),
                None => 0,
            },
        ),
{
    match since_epoch {
        Some(d) => Value::Int(wrap_u64(d.as_secs())),
        None => Value::Int(0),
    }
}

/// `time.now_millis`: the whole milliseconds since the epoch that the
/// clock showed; zero where the clock stood before the epoch.
pub fn now_millis(since_epoch: Option<Duration>) -> (r: Value)
    ensures
        r@ == ValueView::Int(
            match since_epoch {
                Some(d) => wrapped(d.secs_part() * 1000 + d.nanos_part() / 1_000_000),
                None => 0,
            },
        ),
{
    match since_epoch {
        Some(d) => {
            let millis: u128 = d.as_millis();
            let low: u64 = (millis % 0x1_0000_0000_0000_0000) as u64;
            Value::Int(wrap_u64(low))
        },
        None => Value::Int(0),
    }
}

/// What `time.sleep` asks for: how long to sleep.
pub open spec fn sleep_request(args: Seq<ValueView>) -> Result<u64, (HostErrorKind, Seq<char>)> {
    match int_arg(args, 0) {
        None => Err((HostErrorKind::HostFunction, "time.sleep: missing milliseconds argument"@)),
        Some(millis) => if millis < 0 {
            Err((HostErrorKind::HostFunction, "time.sleep: milliseconds must be non-negative"@))
        } else {
            Ok(millis as u64)
        },
    }
}

/// `time.sleep`: the span to sleep for, from the milliseconds in the first
/// argument, which must not be negative.
pub fn sleep(args: &[Value]) -> (r: Result<Duration, HostError>)
    ensures
        match sleep_request(views_of(args@)) {
            Ok(millis) => r matches Ok(d) && d.total_nanos() == millis * 1_000_000 && d.normal(),
            Err(e) => r matches Err(x) && x@ == e,
        },
{
    let millis = match arg_int(args, 0) {
        Some(m) => m,
        None => {
            return Err(HostError::host_function("time.sleep: missing milliseconds argument"));
        },
    };
    if millis < 0 {
        return Err(HostError::host_function("time.sleep: milliseconds must be non-negative"));
    }
    Ok(Duration::from_millis(millis as u64))
}

/// The seconds that a timestamp stands for: a negative timestamp is read
/// as the unsigned number with the same 64 bits.
pub open spec fn unsigned_seconds(timestamp: i64) -> nat {
    if timestamp >= 0 {
        timestamp as nat
    } else {
        (timestamp + 0x1_0000_0000_0000_0000) as nat
    }
}

/// The simple rendering of a timestamp as `YYYY-MM-DD hh:mm:ss`, in which
/// every year has 365 days and every month 30.
pub open spec fn timestamp_text(timestamp: i64) -> Seq<char> {
    let secs = unsigned_seconds(timestamp);
    let days = secs / 86400;
    let remaining = days % 365;
    decimal_padded(1970 + days / 365, 4) + seq!['-'] + decimal_padded(remaining / 30 + 1, 2)
        + seq!['-'] + decimal_padded(remaining % 30 + 1, 2) + seq![' '] + decimal_padded(
        (secs % 86400) / 3600,
        2,
    ) + seq![':'] + decimal_padded((secs % 3600) / 60, 2) + seq![':'] + decimal_padded(
        secs % 60,
        2,
    )
}

/// Renders a timestamp; the format is not looked at.
pub fn format_timestamp(timestamp: i64, _format: &str) -> (r: String)
    ensures
        r@ == timestamp_text(timestamp),
{
    let secs: u64 = if timestamp >= 0 {
        timestamp as u64
    } else {
        ((timestamp - i64::MIN) as u64) + 0x8000_0000_0000_0000
    };
    assert(secs == unsigned_seconds(timestamp));
    let days: u64 = secs / 86400;
    let hours: u64 = (secs % 86400) / 3600;
    let minutes: u64 = (secs % 3600) / 60;
    let seconds: u64 = secs % 60;
    let years: u64 = 1970 + days / 365;
    let remaining: u64 = days % 365;
    let month: u64 = remaining / 30 + 1;
    let day: u64 = remaining % 30 + 1;
    let mut out: Vec<char> = Vec::new();
    push_decimal_padded(&mut out, years, 4);
    out.push('-');
    push_decimal_padded(&mut out, month, 2);
    out.push('-');
    push_decimal_padded(&mut out, day, 2);
    out.push(' ');
    push_decimal_padded(&mut out, hours, 2);
    out.push(':');
    push_decimal_padded(&mut out, minutes, 2);
    out.push(':');
    push_decimal_padded(&mut out, seconds, 2);
    assert(out@ =~= timestamp_text(timestamp));
    string_from_chars(&out)
}

/// What `time.format` gives for `args`.
pub open spec fn format_time_result(args: Seq<ValueView>) -> HostOutcome {
    match int_arg(args, 0) {
        None => Err((HostErrorKind::HostFunction, "time.format: missing timestamp argument"@)),
        Some(timestamp) => Ok(ValueView::Text(timestamp_text(timestamp))),
    }
}

/// `time.format`: the rendering of the timestamp in the first argument.
pub fn format_time(args: &[Value]) -> (r: Result<Value, HostError>)
    ensures
        outcome(r) == format_time_result(views_of(args@)),
{
    let timestamp = match arg_int(args, 0) {
        Some(t) => t,
        None => {
            return Err(HostError::host_function("time.format: missing timestamp argument"));
        },
    };
    let format_str = match arg_str(args, 1) {
        Some(f) => f,
        None => "%Y-%m-%d %H:%M:%S",
    };
    Ok(Value::String(format_timestamp(timestamp, format_str)))
}

/// What `time.parse` gives for `args`: parsing is not provided.
pub open spec fn parse_time_result(args: Seq<ValueView>) -> HostOutcome {
    match text_arg(args, 0) {
        None => Err((HostErrorKind::HostFunction, "time.parse: missing time string argument"@)),
        Some(text) => Err(
            (
                HostErrorKind::HostFunction,
                "time.parse: parsing '"@ + text + "' not yet implemented"@,
            ),
        ),
    }
}

/// `time.parse`: refuses the time string in the first argument.
pub fn parse_time(args: &[Value]) -> (r: Result<Value, HostError>)
    ensures
        outcome(r) == parse_time_result(views_of(args@)),
{
    let time_str = match arg_str(args, 0) {
        Some(t) => t,
        None => {
            return Err(HostError::host_function("time.parse: missing time string argument"));
        },
    };
    let text = concat3("time.parse: parsing '", time_str, "' not yet implemented");
    Err(HostError::host_function(text.as_str()))
}

} // verus!
