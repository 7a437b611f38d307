//! Safety policy engine and verified host-side logic for the extended
//! standard library of an embeddable scripting host.

pub mod collections;
pub mod config;
pub mod containment;
pub mod env;
pub mod error;
pub mod format;
pub mod fs;
pub mod fs_stream;
pub mod gpu;
pub mod host;
pub mod json;
pub mod k8s;
pub mod mcp;
pub mod metrics;
pub mod net;
pub mod net_http;
pub mod observability;
pub mod path;
pub mod process;
pub mod registry;
pub mod safety;
pub mod sigilforge;
pub mod terminal;
pub mod terminal_ui;
pub mod text;
pub mod time;
pub mod value;

use vstd::prelude::*;

pub use config::{ModuleConfig, StdlibConfig};
pub use error::{Error, Result};
pub use registry::StdlibRegistry;
pub use safety::{HostAllowlist, PathAllowlist, SafetyConfig};

verus! {

/// Version of the library.
pub const VERSION: &'static str = "0.1.0";

} // verus!
