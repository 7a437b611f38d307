//! Credentials from the authentication daemon: the checks on the
//! arguments and the shape of the answers. The daemon is asked by the
//! embedding program.

use vstd::prelude::*;
use crate::error::{HostError, HostErrorKind};
use crate::text::copy_str;
use crate::value::{arg_str, text_arg, views_of, Value, ValueView};

verus! {

/// The service and the account that a call names, both texts. `operation`
/// is the name of the operation in the messages.
pub open spec fn named_account(args: Seq<ValueView>, operation: Seq<char>) -> Result<
    (Seq<char>, Seq<char>),
    (HostErrorKind, Seq<char>),
> {
    match text_arg(args, 0) {
        None => Err((HostErrorKind::HostFunction, operation + ": service must be a string"@)),
        Some(service) => match text_arg(args, 1) {
            None => Err((HostErrorKind::HostFunction, operation + ": account must be a string"@)),
            Some(account) => Ok((service, account)),
        },
    }
}

fn account_of(args: &[Value], operation: &str) -> (r: Result<(String, String), HostError>)
    ensures
        match named_account(views_of(args@), operation@) {
            Ok((service, account)) => r matches Ok(pair) && pair.0@ == service && pair.1@
                == account,
            Err(e) => r matches Err(x) && x@ == e,
        },
{
    let service = match arg_str(args, 0) {
        Some(s) => s,
        None => {
            let message = crate::text::concat(operation, ": service must be a string");
            return Err(HostError::host_function(message.as_str()));
        },
    };
    let account = match arg_str(args, 1) {
        Some(a) => a,
        None => {
            let message = crate::text::concat(operation, ": account must be a string");
            return Err(HostError::host_function(message.as_str()));
        },
    };
    Ok((copy_str(service), copy_str(account)))
}

/// `sigilforge.get_token`: the service and the account whose access token
/// is asked for.
pub fn get_token(args: &[Value]) -> (r: Result<(String, String), HostError>)
    ensures
        match named_account(views_of(args@), "sigilforge.get_token"@) {
            Ok((service, account)) => r matches Ok(pair) && pair.0@ == service && pair.1@
                == account,
            Err(e) => r matches Err(x) && x@ == e,
        },
{
    account_of(args, "sigilforge.get_token")
}

/// `sigilforge.ensure_token`: the service and the account whose access
/// token is to be made valid.
pub fn ensure_token(args: &[Value]) -> (r: Result<(String, String), HostError>)
    ensures
        match named_account(views_of(args@), "sigilforge.ensure_token"@) {
            Ok((service, account)) => r matches Ok(pair) && pair.0@ == service && pair.1@
                == account,
            Err(e) => r matches Err(x) && x@ == e,
        },
{
    account_of(args, "sigilforge.ensure_token")
}

/// What `sigilforge.resolve` asks for: the reference to resolve.
pub open spec fn resolve_request(args: Seq<ValueView>) -> Result<
    Seq<char>,
    (HostErrorKind, Seq<char>),
> {
    match text_arg(args, 0) {
        None => Err(
            (HostErrorKind::HostFunction, "sigilforge.resolve: reference must be a string"@),
        ),
        Some(reference) => Ok(reference),
    }
}

/// `sigilforge.resolve`: the reference whose secret is asked for.
pub fn resolve(args: &[Value]) -> (r: Result<String, HostError>)
    ensures
        match resolve_request(views_of(args@)) {
            Ok(reference) => r matches Ok(s) && s@ == reference,
            Err(e) => r matches Err(x) && x@ == e,
        },
{
    match arg_str(args, 0) {
        Some(reference) => Ok(copy_str(reference)),
        None => Err(HostError::host_function("sigilforge.resolve: reference must be a string")),
    }
}

/// The answer for the daemon's answer: the secret as a text, or a runtime
/// error with the daemon's message.
pub fn secret(answer: Result<String, String>) -> (r: Result<Value, HostError>)
    ensures
        match answer {
            Ok(text) => r matches Ok(v) && v@ == ValueView::Text(text@),
            Err(message) => r matches Err(e) && e@ == (HostErrorKind::Runtime, message@),
        },
{
    match answer {
        Ok(text) => Ok(Value::String(text)),
        Err(message) => Err(HostError::runtime(message.as_str())),
    }
}

/// The error for a call outside of an asynchronous runtime.
pub fn no_runtime() -> (e: HostError)
    ensures
        e@ == (HostErrorKind::Runtime, "no tokio runtime available"@),
{
    HostError::runtime("no tokio runtime available")
}

/// `sigilforge.is_available`: the answer for whether the daemon was
/// reached.
pub fn is_available(reached: bool) -> (r: Result<Value, HostError>)
    ensures
        r matches Ok(v) && v@ == ValueView::Bool(reached),
{
    Ok(Value::Bool(reached))
}

} // verus!
