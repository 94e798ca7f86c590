use vstd::prelude::*;
use vstd::string::StringExecFns;

verus! {

/// Builds the lines that the library logs.
pub struct Logger;

/// What every log line starts with.
pub open spec fn log_prefix() -> Seq<char> {
    "[ANTENNA LOG] "@
}

/// What the text of a warning starts with.
pub open spec fn warning_label() -> Seq<char> {
    "WARNING: "@
}

/// What the text of an error starts with.
pub open spec fn error_label() -> Seq<char> {
    "ERROR: "@
}

/// What the text of a debug note starts with.
pub open spec fn debug_label() -> Seq<char> {
    "DEBUG: "@
}

impl Logger {
    /// The log line for a message: the prefix, then the message as it is.
    pub fn log_msg(msg: &str) -> (line: String)
        ensures
            line@ == log_prefix() + msg@,
    {
        let mut line = "[ANTENNA LOG] ".to_owned();
        line.append(msg);
        line
    }

    /// The log line for a warning.
    pub fn warn_msg(msg: &str) -> (line: String)
        ensures
            line@ == log_prefix() + warning_label() + msg@,
    {
        let mut text = "WARNING: ".to_owned();
        text.append(msg);
        Logger::log_msg(text.as_str())
    }

    /// The log line for an error.
    pub fn _error_msg(msg: &str) -> (line: String)
        ensures
            line@ == log_prefix() + error_label() + msg@,
    {
        let mut text = "ERROR: ".to_owned();
        text.append(msg);
        Logger::log_msg(text.as_str())
    }

    /// The log line for a debug note.
    pub fn _debug_msg(msg: &str) -> (line: String)
        ensures
            line@ == log_prefix() + debug_label() + msg@,
    {
        let mut text = "DEBUG: ".to_owned();
        text.append(msg);
        Logger::log_msg(text.as_str())
    }
}

} // verus!
