//! Logging configuration: output format and default level. Installing the
//! subscriber is done by the application.

use vstd::prelude::*;

use crate::utils::text::str_eq;

verus! {

/// Log output format.
#[derive(Debug, Clone, Copy, PartialEq, Eq, Structural)]
pub enum LogFormat {
    /// Human-readable, coloured (the default).
    Pretty,
    /// JSON lines for log aggregation.
    Json,
    /// Compact single-line format.
    Compact,
}

impl Default for LogFormat {
    fn default() -> (f: LogFormat)
        ensures
            f == LogFormat::Pretty,
    {
        LogFormat::Pretty
    }
}

impl LogFormat {
    /// The format a command-line name selects: `"json"`, `"compact"`, and
    /// anything else the pretty format.
    pub fn from_name(name: &str) -> (f: LogFormat)
        ensures
            f == (if name@ == "json"@ {
                LogFormat::Json
            } else if name@ == "compact"@ {
                LogFormat::Compact
            } else {
                LogFormat::Pretty
            }),
    {
        if str_eq(name, "json") {
            LogFormat::Json
        } else if str_eq(name, "compact") {
            LogFormat::Compact
        } else {
            LogFormat::Pretty
        }
    }
}

/// The default log level: `"debug"` when debugging, else `"info"`.
pub fn default_level(debug: bool) -> (s: &'static str)
    ensures
        s@ == (if debug {
            "debug"@
        } else {
            "info"@
        }),
{
    if debug {
        "debug"
    } else {
        "info"
    }
}

/// Logger configuration.
#[derive(Debug)]
pub struct LogConfig {
    /// Output format.
    pub format: LogFormat,
    /// Level used when `RUST_LOG` is not set.
    pub default_level: String,
}

impl Default for LogConfig {
    fn default() -> (c: LogConfig)
        ensures
            c.format == LogFormat::Pretty,
            c.default_level@ == "info"@,
    {
        LogConfig { format: LogFormat::Pretty, default_level: String::from_str("info") }
    }
}

impl Clone for LogConfig {
    fn clone(&self) -> (c: LogConfig)
        ensures
            c == *self,
    {
        LogConfig { format: self.format, default_level: self.default_level.clone() }
    }
}

} // verus!
