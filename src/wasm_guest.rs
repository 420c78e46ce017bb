//! The guest side of the telemetry bridge: the line written when no host is there.

use vstd::prelude::*;

pub use crate::wasm_host::Field;
use crate::wasm_host::{field_views, format_fields, join_fields};

verus! {

#[derive(Clone, Copy, Debug, PartialEq, Eq, Structural)]
pub enum Level {
    Trace,
    Debug,
    Info,
    Warn,
    Error,
}

/// The upper-case name of a level.
pub open spec fn level_label(level: Level) -> Seq<char> {
    match level {
        Level::Trace => "TRACE"@,
        Level::Debug => "DEBUG"@,
        Level::Info => "INFO"@,
        Level::Warn => "WARN"@,
        Level::Error => "ERROR"@,
    }
}

/// The upper-case name of a level.
pub fn level_name(level: Level) -> (r: &'static str)
    ensures
        r@ == level_label(level),
{
    match level {
        Level::Trace => "TRACE",
        Level::Debug => "DEBUG",
        Level::Info => "INFO",
        Level::Warn => "WARN",
        Level::Error => "ERROR",
    }
}

/// The line for a log entry: `[LEVEL] message`, followed by ` [k=v, ...]` when there are fields.
pub open spec fn fallback_text(level: Level, message: Seq<char>, fields: Seq<(Seq<char>, Seq<char>)>) -> Seq<char> {
    let head = "["@ + level_label(level) + "] "@ + message;
    if fields.len() == 0 {
        head
    } else {
        head + " ["@ + join_fields(fields) + "]"@
    }
}

/// The line written for a log entry when no host is there.
pub fn fallback_line(level: Level, message: &str, fields: &[Field]) -> (r: String)
    ensures
        r@ == fallback_text(level, message@, field_views(fields@)),
{
    let mut line = String::from_str("[");
    line.append(level_name(level));
    line.append("] ");
    line.append(message);
    if fields.len() > 0 {
        let serialized = format_fields(fields);
        line.append(" [");
        line.append(serialized.as_str());
        line.append("]");
    }
    line
}

/// The message logged when a span starts without a host: `span-start: <name>`.
pub fn span_start_message(name: &str) -> (r: String)
    ensures
        r@ == "span-start: "@ + name@,
{
    let mut m = String::from_str("span-start: ");
    m.append(name);
    m
}

} // verus!
