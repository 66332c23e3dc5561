//! Configuration resolution: six environment-provided values, each optional,
//! each falling back silently to a documented default when absent or
//! malformed, and a redacted public projection of the result.

use vstd::prelude::*;

verus! {

use crate::text::{parsed_uint, lower_seq, parse_u64, parse_u16};
use crate::text::eq_ignore_ascii;
use vstd::string::StringExecFns;

/// Severity threshold of the process log output.
#[derive(Clone, Copy, Debug, PartialEq, Eq, Structural)]
pub enum LogLevel {
    Error,
    Warn,
    Info,
    Debug,
    Trace,
}

/// The level a numeral between one and five denotes, most severe first.
pub open spec fn level_of_number(n: nat) -> LogLevel
    recommends
        1 <= n <= 5,
{
    if n == 1 { LogLevel::Error }
    else if n == 2 { LogLevel::Warn }
    else if n == 3 { LogLevel::Info }
    else if n == 4 { LogLevel::Debug }
    else { LogLevel::Trace }
}

/// The level a name denotes, compared without regard to ASCII case; `None`
/// for a text that names no level.
pub open spec fn level_of_name(s: Seq<char>) -> Option<LogLevel> {
    if lower_seq(s) == lower_seq("error"@) {
        Some(LogLevel::Error)
    } else if lower_seq(s) == lower_seq("warn"@) {
        Some(LogLevel::Warn)
    } else if lower_seq(s) == lower_seq("info"@) {
        Some(LogLevel::Info)
    } else if lower_seq(s) == lower_seq("debug"@) {
        Some(LogLevel::Debug)
    } else if lower_seq(s) == lower_seq("trace"@) {
        Some(LogLevel::Trace)
    } else {
        None
    }
}

/// The level a text denotes: a decimal numeral between one and five, or a
/// level name compared without regard to ASCII case; `None` for any other
/// text. This is the reading `tracing`'s level parser gives such a text.
pub open spec fn level_of(s: Seq<char>) -> Option<LogLevel> {
    match parsed_uint(s) {
        Some(n) => if 1 <= n <= 5 {
            Some(level_of_number(n))
        } else {
            level_of_name(s)
        },
        None => level_of_name(s),
    }
}

/// Reads a log level as `level_of` defines it.
pub fn parse_level(s: &str) -> (r: Option<LogLevel>)
    ensures
        r == level_of(s@),
{
    match parse_u64(s) {
        Some(n) if 1 <= n && n <= 5 => {
            if n == 1 { Some(LogLevel::Error) }
            else if n == 2 { Some(LogLevel::Warn) }
            else if n == 3 { Some(LogLevel::Info) }
            else if n == 4 { Some(LogLevel::Debug) }
            else { Some(LogLevel::Trace) }
        },
        _ => {
            if eq_ignore_ascii(s, "error") { Some(LogLevel::Error) }
            else if eq_ignore_ascii(s, "warn") { Some(LogLevel::Warn) }
            else if eq_ignore_ascii(s, "info") { Some(LogLevel::Info) }
            else if eq_ignore_ascii(s, "debug") { Some(LogLevel::Debug) }
            else if eq_ignore_ascii(s, "trace") { Some(LogLevel::Trace) }
            else { None }
        },
    }
}

/// The raw environment values the resolver reads: one optional text per
/// recognized variable, `None` where the variable is absent.
pub struct EnvInput {
    pub host: Option<String>,
    pub port: Option<String>,
    pub log_level: Option<String>,
    pub refresh_interval_ms: Option<String>,
    pub gatus_url: Option<String>,
    pub page_title: Option<String>,
}

/// A text value, or the default where it is absent.
pub open spec fn resolved_text(v: Option<String>, default: Seq<char>) -> Seq<char> {
    match v {
        Some(s) => s@,
        None => default,
    }
}

/// The listen port a raw value resolves to: its value where the text is a
/// decimal numeral fitting a `u16`, the default 3000 where it is absent or
/// malformed.
pub open spec fn resolved_port(v: Option<String>) -> u16 {
    match v {
        Some(s) => match parsed_uint(s@) {
            Some(n) => if n <= u16::MAX { n as u16 } else { 3000 },
            None => 3000,
        },
        None => 3000,
    }
}

/// The refresh interval a raw value resolves to: its value where the text is
/// a decimal numeral fitting a `u64`, the default 60000 where it is absent
/// or malformed.
pub open spec fn resolved_interval(v: Option<String>) -> u64 {
    match v {
        Some(s) => match parsed_uint(s@) {
            Some(n) => if n <= u64::MAX { n as u64 } else { 60000 },
            None => 60000,
        },
        None => 60000,
    }
}

/// The log level a raw value resolves to: the level it denotes, `Info` where
/// it is absent or denotes none.
pub open spec fn resolved_level(v: Option<String>) -> LogLevel {
    match v {
        Some(s) => match level_of(s@) {
            Some(l) => l,
            None => LogLevel::Info,
        },
        None => LogLevel::Info,
    }
}

/// The process configuration, immutable once resolved. Every field has a
/// well-defined default; a malformed typed value falls back to that default
/// rather than failing startup.
#[derive(Clone, Debug)]
pub struct AppConfig {
    pub page_title: String,
    pub gatus_url: String,
    pub refresh_interval_ms: u64,
    pub host: String,
    pub port: u16,
    pub log_level: LogLevel,
}

impl AppConfig {
    /// Resolves the configuration from the raw environment values: each
    /// recognized value yields exactly itself when well-formed, and exactly
    /// the documented default when absent or malformed. Total: no input
    /// fails it.
    pub fn new(env: EnvInput) -> (c: Self)
        ensures
            c.host@ == resolved_text(env.host, "0.0.0.0"@),
            c.port == resolved_port(env.port),
            c.log_level == resolved_level(env.log_level),
            c.refresh_interval_ms == resolved_interval(env.refresh_interval_ms),
            c.gatus_url@ == resolved_text(env.gatus_url, "https://status.twin.sh"@),
            c.page_title@ == resolved_text(env.page_title, "HiveStatus"@),
    {
        let host = match env.host {
            Some(h) => h,
            None => String::from_str("0.0.0.0"),
        };
        let port = match env.port {
            Some(s) => match parse_u16(s.as_str()) {
                Some(n) => n,
                None => 3000,
            },
            None => 3000,
        };
        let log_level = match env.log_level {
            Some(s) => match parse_level(s.as_str()) {
                Some(l) => l,
                None => LogLevel::Info,
            },
            None => LogLevel::Info,
        };
        let refresh_interval_ms = match env.refresh_interval_ms {
            Some(s) => match parse_u64(s.as_str()) {
                Some(n) => n,
                None => 60000,
            },
            None => 60000,
        };
        let gatus_url = match env.gatus_url {
            Some(u) => u,
            None => String::from_str("https://status.twin.sh"),
        };
        let page_title = match env.page_title {
            Some(t) => t,
            None => String::from_str("HiveStatus"),
        };
        AppConfig { page_title, gatus_url, refresh_interval_ms, host, port, log_level }
    }
}

/// The law the resolver obeys, stated for every raw value: an absent value
/// yields exactly the documented default of its field; a malformed value of
/// a typed field yields exactly that default too; and a well-formed value
/// yields exactly itself.
pub proof fn lemma_env_resolution(s: String)
    ensures
        resolved_port(None) == 3000,
        resolved_interval(None) == 60000,
        resolved_level(None) == LogLevel::Info,
        resolved_text(None, "0.0.0.0"@) == "0.0.0.0"@,
        resolved_text(None, "https://status.twin.sh"@) == "https://status.twin.sh"@,
        resolved_text(None, "HiveStatus"@) == "HiveStatus"@,
        parsed_uint(s@) is None ==> resolved_port(Some(s)) == 3000,
        parsed_uint(s@) is None ==> resolved_interval(Some(s)) == 60000,
        level_of(s@) is None ==> resolved_level(Some(s)) == LogLevel::Info,
        parsed_uint(s@) matches Some(n) ==> (n <= u16::MAX ==> resolved_port(Some(s)) == n as u16),
        parsed_uint(s@) matches Some(n) ==> (n > u16::MAX ==> resolved_port(Some(s)) == 3000),
        parsed_uint(s@) matches Some(n) ==> (n <= u64::MAX ==> resolved_interval(Some(s)) == n as u64),
        parsed_uint(s@) matches Some(n) ==> (n > u64::MAX ==> resolved_interval(Some(s)) == 60000),
        level_of(s@) matches Some(l) ==> resolved_level(Some(s)) == l,
        resolved_text(Some(s), "0.0.0.0"@) == s@,
        resolved_text(Some(s), "https://status.twin.sh"@) == s@,
        resolved_text(Some(s), "HiveStatus"@) == s@,
{
}

/// The projection of the configuration that is safe to expose to clients:
/// only the three display fields, never the bind address or the log level.
#[derive(Clone, Debug)]
pub struct AppPublicConfig {
    pub page_title: String,
    pub gatus_url: String,
    pub refresh_interval_ms: u64,
}

} // verus!
