//! State and input handling of the terminal user interface.
//!
//! The shared runtime state itself (atomics holding floating-point values)
//! lives beside the program; the logic that decides what a key does, and the
//! bounded history of captured log lines, live here.

pub mod app;
pub mod input;
pub mod view;

use vstd::prelude::*;
use vstd::string::*;

verus! {

/// Severity of a log line captured from the streaming toolkit.
#[derive(Clone, Copy, Debug, PartialEq, Eq, Structural)]
pub enum LogLevel {
    Off,
    Error,
    Info,
    Note,
    Debug,
    Trace,
}

/// A single captured log line.
#[derive(Clone, Debug)]
pub struct LogLine {
    pub level: LogLevel,
    pub text: String,
}

/// The text of a captured log line: `[module] text` when the toolkit names
/// the module, the bare text when it does not, and nothing when there is no
/// text.
pub fn log_text(module: Option<&str>, text: Option<&str>) -> (r: String)
    ensures
        r@ == match (module, text) {
            (Some(m), Some(t)) => "["@ + m@ + "] "@ + t@,
            (None, Some(t)) => t@,
            _ => Seq::<char>::empty(),
        },
{
    match (module, text) {
        (Some(m), Some(t)) => {
            let mut r = String::from_str("[");
            r.append(m);
            r.append("] ");
            r.append(t);
            r
        },
        (None, Some(t)) => String::from_str(t),
        _ => String::new(),
    }
}

} // verus!
