//! The settings of the log.

use crate::text::{concat, str_eq};
use vstd::prelude::*;

verus! {

/// What is added to the log level to make the default filter: the
/// libraries underneath are heard only from `warn` on.
pub const QUIET_LIBRARIES: &'static str =
    ",tower_http=warn,hyper=warn,tokio_util=warn,axum=warn,notify=warn,notify_debouncer_full=warn";

/// The form of the log's lines.
#[derive(Debug, Clone, Copy, PartialEq, Eq, Structural)]
pub enum LogFormat {
    Pretty,
    Json,
}

impl Default for LogFormat {
    fn default() -> (r: LogFormat)
        ensures
            r == LogFormat::Pretty,
    {
        LogFormat::Pretty
    }
}

/// The level from which on the log is written.
#[derive(Debug, Clone, Copy, PartialEq, Eq, Structural)]
pub enum LogLevel {
    Trace,
    Debug,
    Info,
    Warn,
    Error,
}

impl Default for LogLevel {
    fn default() -> (r: LogLevel)
        ensures
            r == LogLevel::Info,
    {
        LogLevel::Info
    }
}

impl LogFormat {
    /// The name of the format, in lower case.
    pub open spec fn spec_as_str(&self) -> Seq<char> {
        match self {
            LogFormat::Pretty => "pretty"@,
            LogFormat::Json => "json"@,
        }
    }

    /// The name of the format, in lower case.
    pub fn as_str(&self) -> (r: &'static str)
        ensures
            r@ == self.spec_as_str(),
    {
        match self {
            LogFormat::Pretty => "pretty",
            LogFormat::Json => "json",
        }
    }

    /// The format of a name, which is written in lower case.
    pub fn parse(name: &str) -> (r: Option<LogFormat>)
        ensures
            r matches Some(format) ==> format.spec_as_str() == name@,
            r is None ==> forall|format: LogFormat| format.spec_as_str() != name@,
    {
        if str_eq(name, "pretty") {
            Some(LogFormat::Pretty)
        } else if str_eq(name, "json") {
            Some(LogFormat::Json)
        } else {
            None
        }
    }
}

impl LogLevel {
    /// The name of the level, in lower case.
    pub open spec fn spec_as_str(&self) -> Seq<char> {
        match self {
            LogLevel::Trace => "trace"@,
            LogLevel::Debug => "debug"@,
            LogLevel::Info => "info"@,
            LogLevel::Warn => "warn"@,
            LogLevel::Error => "error"@,
        }
    }

    /// The name of the level, in lower case.
    pub fn as_str(&self) -> (r: &'static str)
        ensures
            r@ == self.spec_as_str(),
    {
        match self {
            LogLevel::Trace => "trace",
            LogLevel::Debug => "debug",
            LogLevel::Info => "info",
            LogLevel::Warn => "warn",
            LogLevel::Error => "error",
        }
    }

    /// The level of a name, which is written in lower case.
    pub fn parse(name: &str) -> (r: Option<LogLevel>)
        ensures
            r matches Some(level) ==> level.spec_as_str() == name@,
            r is None ==> forall|level: LogLevel| level.spec_as_str() != name@,
    {
        if str_eq(name, "trace") {
            Some(LogLevel::Trace)
        } else if str_eq(name, "debug") {
            Some(LogLevel::Debug)
        } else if str_eq(name, "info") {
            Some(LogLevel::Info)
        } else if str_eq(name, "warn") {
            Some(LogLevel::Warn)
        } else if str_eq(name, "error") {
            Some(LogLevel::Error)
        } else {
            None
        }
    }

    /// The filter of the log where the environment sets none: the level for
    /// the program itself, and `warn` for the libraries underneath.
    pub fn default_filter(&self) -> (r: String)
        ensures
            r@ == self.spec_as_str() + QUIET_LIBRARIES@,
    {
        concat(self.as_str(), QUIET_LIBRARIES)
    }
}

} // verus!
