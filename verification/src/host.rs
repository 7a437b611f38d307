//! Calls into the scripting host's own crate.
//!
//! The contracts of the functions here are not proved: they state what the
//! host crate's source shows of the function that each one calls.

use vstd::prelude::*;
use crate::text::decimal;
use crate::value::{Float, Value, ValueView};

verus! {

/// The notation of binary data of `len` bytes.
pub open spec fn bytes_notation(len: nat) -> Seq<char> {
    "<bytes len="@ + decimal(len) + ">"@
}

/// The notation of an error value with the message `msg`.
pub open spec fn error_notation(msg: Seq<char>) -> Seq<char> {
    "<error: "@ + msg + ">"@
}

/// The floating-point number nearest to `i`: its 64 bits and its decimal
/// rendering.
pub uninterp spec fn float_of_int(i: i64) -> (u64, Seq<char>);

/// The notation of binary data and of an error value, as the host writes
/// them; empty for any other value.
pub open spec fn host_notation(v: ValueView) -> Seq<char> {
    match v {
        ValueView::Bytes(b) => bytes_notation(b.len()),
        ValueView::Error(e) => error_notation(e),
        _ => Seq::empty(),
    }
}

/// Trusted: the `Display` form of the host's `Value` for binary data, which
/// is `<bytes len=N>` with the number of bytes in decimal, and for an error
/// value, which is `<error: MSG>` with the message as it is.
#[verifier::external_body]
pub(crate) fn display(value: &Value) -> (r: String)
    requires
        value@ is Bytes || value@ is Error,
    ensures
        r@ == host_notation(value@),
{
    let host = match value {
        Value::Bytes(bytes) => fusabi_host::Value::Bytes(bytes.clone()),
        Value::Error(message) => fusabi_host::Value::Error(message.clone()),
        _ => fusabi_host::Value::Null,
    };
    host.to_string()
}

/// Trusted: the host's `Value::as_float` on an integer value, which converts
/// the integer to the nearest floating-point number; the result holds the
/// bits of that number and its decimal rendering. Both depend on the
/// integer alone.
#[verifier::external_body]
pub(crate) fn int_as_float(i: i64) -> (r: Float)
    ensures
        (r.bits, r.text@) == float_of_int(i),
{
    match fusabi_host::Value::Int(i).as_float() {
        Some(number) => Float { bits: number.to_bits(), text: number.to_string() },
        None => Float { bits: 0, text: String::new() },
    }
}

} // verus!
