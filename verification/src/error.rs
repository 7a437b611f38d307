//! Error values of the library.
//!
//! `Error` is what policy checks and library operations report. `HostError`
//! is what an adapter hands back to the scripting host.

use vstd::prelude::*;
use crate::text::{concat, concat3, copy_str, decimal_int, i64_to_string};
use crate::time::duration::{duration_debug, Duration};

verus! {

/// The kind of an `Error`, without its payload.
#[derive(Debug, Clone, Copy, PartialEq, Eq, Structural)]
pub enum ErrorKind {
    NotPermitted,
    PathNotAllowed,
    HostNotAllowed,
    EnvNotAllowed,
    CommandNotAllowed,
    Timeout,
    Process,
    ProcessExit,
    Filesystem,
    Network,
    Format,
    Environment,
    ModuleNotAvailable,
    InvalidArgument,
    Io,
    Host,
    Internal,
    TerminalUI,
    K8s,
    InvalidValue,
    Serialization,
}

/// Errors that library operations report.
#[derive(Debug)]
pub enum Error {
    /// A capability is switched off as a whole.
    NotPermitted(String),
    /// The path is outside the allowed prefixes, or under a denied one.
    PathNotAllowed(String),
    /// The host matches a deny pattern, or no allow pattern.
    HostNotAllowed(String),
    /// The environment variable is not in the allowlist.
    EnvNotAllowed(String),
    /// The command is not in the allowlist.
    CommandNotAllowed(String),
    /// An operation ran longer than its timeout.
    Timeout(Duration),
    /// A process could not be run.
    Process(String),
    /// A process ended with a code other than zero.
    ProcessExit { code: i32, message: String },
    /// A filesystem operation failed.
    Filesystem(String),
    /// A network operation failed.
    Network(String),
    /// A text could not be formatted.
    Format(String),
    /// The environment could not be read or changed.
    Environment(String),
    /// A module is not registered.
    ModuleNotAvailable(String),
    /// An argument is malformed.
    InvalidArgument(String),
    /// An input/output failure, by its message.
    Io(String),
    /// A failure reported by the scripting host, by its message.
    Host(String),
    /// A fault inside the library.
    Internal(String),
    /// A terminal user interface failure.
    TerminalUI(String),
    /// A cluster API failure.
    K8s(String),
    /// A value has the wrong shape.
    InvalidValue(String),
    /// A value could not be serialized.
    Serialization(String),
}

impl Error {
    /// The kind of the error.
    pub open spec fn kind(&self) -> ErrorKind {
        match self {
            Error::NotPermitted(_) => ErrorKind::NotPermitted,
            Error::PathNotAllowed(_) => ErrorKind::PathNotAllowed,
            Error::HostNotAllowed(_) => ErrorKind::HostNotAllowed,
            Error::EnvNotAllowed(_) => ErrorKind::EnvNotAllowed,
            Error::CommandNotAllowed(_) => ErrorKind::CommandNotAllowed,
            Error::Timeout(_) => ErrorKind::Timeout,
            Error::Process(_) => ErrorKind::Process,
            Error::ProcessExit { .. } => ErrorKind::ProcessExit,
            Error::Filesystem(_) => ErrorKind::Filesystem,
            Error::Network(_) => ErrorKind::Network,
            Error::Format(_) => ErrorKind::Format,
            Error::Environment(_) => ErrorKind::Environment,
            Error::ModuleNotAvailable(_) => ErrorKind::ModuleNotAvailable,
            Error::InvalidArgument(_) => ErrorKind::InvalidArgument,
            Error::Io(_) => ErrorKind::Io,
            Error::Host(_) => ErrorKind::Host,
            Error::Internal(_) => ErrorKind::Internal,
            Error::TerminalUI(_) => ErrorKind::TerminalUI,
            Error::K8s(_) => ErrorKind::K8s,
            Error::InvalidValue(_) => ErrorKind::InvalidValue,
            Error::Serialization(_) => ErrorKind::Serialization,
        }
    }

    /// The text that the error carries (empty for a timeout).
    pub open spec fn detail(&self) -> Seq<char> {
        match self {
            Error::NotPermitted(m) => m@,
            Error::PathNotAllowed(m) => m@,
            Error::HostNotAllowed(m) => m@,
            Error::EnvNotAllowed(m) => m@,
            Error::CommandNotAllowed(m) => m@,
            Error::Timeout(_) => Seq::empty(),
            Error::Process(m) => m@,
            Error::ProcessExit { message, .. } => message@,
            Error::Filesystem(m) => m@,
            Error::Network(m) => m@,
            Error::Format(m) => m@,
            Error::Environment(m) => m@,
            Error::ModuleNotAvailable(m) => m@,
            Error::InvalidArgument(m) => m@,
            Error::Io(m) => m@,
            Error::Host(m) => m@,
            Error::Internal(m) => m@,
            Error::TerminalUI(m) => m@,
            Error::K8s(m) => m@,
            Error::InvalidValue(m) => m@,
            Error::Serialization(m) => m@,
        }
    }

    /// What precedes the detail in the message of an error of this kind.
    pub open spec fn prefix_of(kind: ErrorKind) -> Seq<char> {
        match kind {
            ErrorKind::NotPermitted => "operation not permitted: "@,
            ErrorKind::PathNotAllowed => "path not allowed: "@,
            ErrorKind::HostNotAllowed => "host not allowed: "@,
            ErrorKind::EnvNotAllowed => "environment variable access denied: "@,
            ErrorKind::CommandNotAllowed => "command not allowed: "@,
            ErrorKind::Timeout => "operation timed out after "@,
            ErrorKind::Process => "process error: "@,
            ErrorKind::ProcessExit => "process exited with code "@,
            ErrorKind::Filesystem => "filesystem error: "@,
            ErrorKind::Network => "network error: "@,
            ErrorKind::Format => "format error: "@,
            ErrorKind::Environment => "environment error: "@,
            ErrorKind::ModuleNotAvailable => "module not available: "@,
            ErrorKind::InvalidArgument => "invalid argument: "@,
            ErrorKind::Io => "io error: "@,
            ErrorKind::Host => "host error: "@,
            ErrorKind::Internal => "internal error: "@,
            ErrorKind::TerminalUI => "terminal UI error: "@,
            ErrorKind::K8s => "kubernetes error: "@,
            ErrorKind::InvalidValue => "invalid value: "@,
            ErrorKind::Serialization => "serialization error: "@,
        }
    }

    /// The message of the error: the prefix of its kind, then its payload.
    pub open spec fn message_text(&self) -> Seq<char> {
        match self {
            Error::Timeout(d) => Self::prefix_of(ErrorKind::Timeout) + duration_debug(
                d.secs_part() as u64,
                d.nanos_part() as u32,
            ),
            Error::ProcessExit { code, message } => Self::prefix_of(ErrorKind::ProcessExit)
                + decimal_int(*code as int) + ": "@ + message@,
            _ => Self::prefix_of(self.kind()) + self.detail(),
        }
    }

    /// An error for a capability that is switched off.
    pub fn not_permitted(msg: &str) -> (e: Self)
        ensures
            e.kind() == ErrorKind::NotPermitted,
            e.detail() == msg@,
    {
        Error::NotPermitted(copy_str(msg))
    }

    /// An error for a path that is not allowed.
    pub fn path_not_allowed(path: &str) -> (e: Self)
        ensures
            e.kind() == ErrorKind::PathNotAllowed,
            e.detail() == path@,
    {
        Error::PathNotAllowed(copy_str(path))
    }

    /// An error for a host that is not allowed.
    pub fn host_not_allowed(host: &str) -> (e: Self)
        ensures
            e.kind() == ErrorKind::HostNotAllowed,
            e.detail() == host@,
    {
        Error::HostNotAllowed(copy_str(host))
    }

    /// An error for an environment variable that is not allowed.
    pub fn env_not_allowed(name: &str) -> (e: Self)
        ensures
            e.kind() == ErrorKind::EnvNotAllowed,
            e.detail() == name@,
    {
        Error::EnvNotAllowed(copy_str(name))
    }

    /// An error for a command that is not allowed.
    pub fn command_not_allowed(command: &str) -> (e: Self)
        ensures
            e.kind() == ErrorKind::CommandNotAllowed,
            e.detail() == command@,
    {
        Error::CommandNotAllowed(copy_str(command))
    }

    /// An error for an operation that ran out of time.
    pub fn timeout(duration: Duration) -> (e: Self)
        ensures
            e == Error::Timeout(duration),
    {
        Error::Timeout(duration)
    }

    /// An error for a process that could not be run.
    pub fn process(msg: &str) -> (e: Self)
        ensures
            e.kind() == ErrorKind::Process,
            e.detail() == msg@,
    {
        Error::Process(copy_str(msg))
    }

    /// An error for a process that ended with `code`.
    pub fn process_exit(code: i32, message: &str) -> (e: Self)
        ensures
            e matches Error::ProcessExit { code: c, message: m } && c == code && m@ == message@,
    {
        Error::ProcessExit { code, message: copy_str(message) }
    }

    /// An error for a failed filesystem operation.
    pub fn filesystem(msg: &str) -> (e: Self)
        ensures
            e.kind() == ErrorKind::Filesystem,
            e.detail() == msg@,
    {
        Error::Filesystem(copy_str(msg))
    }

    /// An error for a failed network operation.
    pub fn network(msg: &str) -> (e: Self)
        ensures
            e.kind() == ErrorKind::Network,
            e.detail() == msg@,
    {
        Error::Network(copy_str(msg))
    }

    /// An error for a text that could not be formatted.
    pub fn format(msg: &str) -> (e: Self)
        ensures
            e.kind() == ErrorKind::Format,
            e.detail() == msg@,
    {
        Error::Format(copy_str(msg))
    }

    /// An error for a malformed argument.
    pub fn invalid_argument(msg: &str) -> (e: Self)
        ensures
            e.kind() == ErrorKind::InvalidArgument,
            e.detail() == msg@,
    {
        Error::InvalidArgument(copy_str(msg))
    }

    /// An error for a value of the wrong shape.
    pub fn invalid_value(msg: &str) -> (e: Self)
        ensures
            e.kind() == ErrorKind::InvalidValue,
            e.detail() == msg@,
    {
        Error::InvalidValue(copy_str(msg))
    }

    /// The kind of the error.
    pub fn error_kind(&self) -> (k: ErrorKind)
        ensures
            k == self.kind(),
    {
        match self {
            Error::NotPermitted(_) => ErrorKind::NotPermitted,
            Error::PathNotAllowed(_) => ErrorKind::PathNotAllowed,
            Error::HostNotAllowed(_) => ErrorKind::HostNotAllowed,
            Error::EnvNotAllowed(_) => ErrorKind::EnvNotAllowed,
            Error::CommandNotAllowed(_) => ErrorKind::CommandNotAllowed,
            Error::Timeout(_) => ErrorKind::Timeout,
            Error::Process(_) => ErrorKind::Process,
            Error::ProcessExit { .. } => ErrorKind::ProcessExit,
            Error::Filesystem(_) => ErrorKind::Filesystem,
            Error::Network(_) => ErrorKind::Network,
            Error::Format(_) => ErrorKind::Format,
            Error::Environment(_) => ErrorKind::Environment,
            Error::ModuleNotAvailable(_) => ErrorKind::ModuleNotAvailable,
            Error::InvalidArgument(_) => ErrorKind::InvalidArgument,
            Error::Io(_) => ErrorKind::Io,
            Error::Host(_) => ErrorKind::Host,
            Error::Internal(_) => ErrorKind::Internal,
            Error::TerminalUI(_) => ErrorKind::TerminalUI,
            Error::K8s(_) => ErrorKind::K8s,
            Error::InvalidValue(_) => ErrorKind::InvalidValue,
            Error::Serialization(_) => ErrorKind::Serialization,
        }
    }

    /// Whether the error comes from the safety policy: a capability switched
    /// off, or a path, host, environment variable or command that is not
    /// allowed.
    pub fn is_safety_error(&self) -> (r: bool)
        ensures
            r == (self.kind() == ErrorKind::NotPermitted || self.kind()
                == ErrorKind::PathNotAllowed || self.kind() == ErrorKind::HostNotAllowed
                || self.kind() == ErrorKind::EnvNotAllowed || self.kind()
                == ErrorKind::CommandNotAllowed),
    {
        match self {
            Error::NotPermitted(_) => true,
            Error::PathNotAllowed(_) => true,
            Error::HostNotAllowed(_) => true,
            Error::EnvNotAllowed(_) => true,
            Error::CommandNotAllowed(_) => true,
            _ => false,
        }
    }

    /// Whether the error is a timeout.
    pub fn is_timeout(&self) -> (r: bool)
        ensures
            r == (self.kind() == ErrorKind::Timeout),
    {
        match self {
            Error::Timeout(_) => true,
            _ => false,
        }
    }

    /// The message of the error.
    pub fn message(&self) -> (r: String)
        ensures
            r@ == self.message_text(),
    {
        match self {
            Error::NotPermitted(m) => concat("operation not permitted: ", m.as_str()),
            Error::PathNotAllowed(m) => concat("path not allowed: ", m.as_str()),
            Error::HostNotAllowed(m) => concat("host not allowed: ", m.as_str()),
            Error::EnvNotAllowed(m) => concat("environment variable access denied: ", m.as_str()),
            Error::CommandNotAllowed(m) => concat("command not allowed: ", m.as_str()),
            Error::Timeout(d) => {
                let text = d.debug_text();
                concat("operation timed out after ", text.as_str())
            },
            Error::Process(m) => concat("process error: ", m.as_str()),
            Error::ProcessExit { code, message } => {
                let number = i64_to_string(*code as i64);
                let head = concat3("process exited with code ", number.as_str(), ": ");
                concat(head.as_str(), message.as_str())
            },
            Error::Filesystem(m) => concat("filesystem error: ", m.as_str()),
            Error::Network(m) => concat("network error: ", m.as_str()),
            Error::Format(m) => concat("format error: ", m.as_str()),
            Error::Environment(m) => concat("environment error: ", m.as_str()),
            Error::ModuleNotAvailable(m) => concat("module not available: ", m.as_str()),
            Error::InvalidArgument(m) => concat("invalid argument: ", m.as_str()),
            Error::Io(m) => concat("io error: ", m.as_str()),
            Error::Host(m) => concat("host error: ", m.as_str()),
            Error::Internal(m) => concat("internal error: ", m.as_str()),
            Error::TerminalUI(m) => concat("terminal UI error: ", m.as_str()),
            Error::K8s(m) => concat("kubernetes error: ", m.as_str()),
            Error::InvalidValue(m) => concat("invalid value: ", m.as_str()),
            Error::Serialization(m) => concat("serialization error: ", m.as_str()),
        }
    }
}

/// The two ways in which an adapter reports failure to the scripting host.
#[derive(Debug, Clone, Copy, PartialEq, Eq, Structural)]
pub enum HostErrorKind {
    /// A host function rejected its arguments or failed.
    HostFunction,
    /// The runtime around the host function failed.
    Runtime,
}

/// A failure that an adapter hands back to the scripting host.
#[derive(Debug)]
pub struct HostError {
    pub kind: HostErrorKind,
    pub message: String,
}

impl HostError {
    /// The parts of the error as mathematical values.
    pub open spec fn view(&self) -> (HostErrorKind, Seq<char>) {
        (self.kind, self.message@)
    }

    /// A failure of a host function.
    pub fn host_function(msg: &str) -> (e: Self)
        ensures
            e@ == (HostErrorKind::HostFunction, msg@),
    {
        HostError { kind: HostErrorKind::HostFunction, message: copy_str(msg) }
    }

    /// A failure of the runtime around a host function.
    pub fn runtime(msg: &str) -> (e: Self)
        ensures
            e@ == (HostErrorKind::Runtime, msg@),
    {
        HostError { kind: HostErrorKind::Runtime, message: copy_str(msg) }
    }

    /// A library error as a host function failure with the same message.
    pub fn from_error(e: &Error) -> (r: Self)
        ensures
            r@ == (HostErrorKind::HostFunction, e.message_text()),
    {
        HostError { kind: HostErrorKind::HostFunction, message: e.message() }
    }
}

/// The result of a library operation.
pub type Result<T> = std::result::Result<T, Error>;

} // verus!
