//! Coloured log lines.
use vstd::prelude::*;
use vstd::string::*;

verus! {

pub const RED: &'static str = "\x1b[31m";
pub const GREEN: &'static str = "\x1b[32m";
pub const YELLOW: &'static str = "\x1b[33m";
/// Reset to default.
pub const RESET: &'static str = "\x1b[0m";

/// `[<colour>LEVEL<reset>]: <msg>`.
pub open spec fn log_line(colour: Seq<char>, level: Seq<char>, msg: Seq<char>) -> Seq<char> {
    "["@ + colour + level + RESET@ + "]: "@ + msg
}

fn line(colour: &str, level: &str, msg: &str) -> (r: String)
    ensures
        r@ == log_line(colour@, level@, msg@),
{
    String::from_str("[").concat(colour).concat(level).concat(RESET).concat("]: ").concat(msg)
}

/// Writes log lines.
pub struct Logger {}

impl Logger {
    /// The line for an informational message, tagged in green.
    pub fn info_line(msg: &str) -> (r: String)
        ensures
            r@ == log_line(GREEN@, "INFO"@, msg@),
    {
        line(GREEN, "INFO", msg)
    }

    /// The line for an error, tagged in red.
    pub fn error_line(msg: &str) -> (r: String)
        ensures
            r@ == log_line(RED@, "ERROR"@, msg@),
    {
        line(RED, "ERROR", msg)
    }

    /// The line for a debugging message, tagged in yellow.
    pub fn debug_line(msg: &str) -> (r: String)
        ensures
            r@ == log_line(YELLOW@, "DEBUG"@, msg@),
    {
        line(YELLOW, "DEBUG", msg)
    }
}

} // verus!
