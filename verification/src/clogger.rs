//! Log levels and their filtering rule. The colored terminal writer that
//! consumes them lives outside the library.

use vstd::prelude::*;
use vstd::string::StringExecFns;

verus! {

/// A log level: both the threshold a logger is configured with and the
/// severity of one message.
#[derive(Debug, Copy, Clone, PartialEq, Eq)]
pub enum ClogLevel {
    Debug,
    Info,
    Success,
    Warning,
    Error,
    Trace,
    Announce,
}

/// The threshold rank of a configured level: messages ranking below it are
/// dropped. A Debug, Trace or Announce threshold lets everything through.
pub open spec fn threshold_rank(level: ClogLevel) -> int {
    match level {
        ClogLevel::Debug => 0,
        ClogLevel::Info => 1,
        ClogLevel::Success => 2,
        ClogLevel::Warning => 3,
        ClogLevel::Error => 4,
        ClogLevel::Trace => 0,
        ClogLevel::Announce => 0,
    }
}

/// The severity rank of a message level; Trace and Announce messages pass
/// every threshold.
pub open spec fn severity_rank(level: ClogLevel) -> int {
    match level {
        ClogLevel::Debug => 0,
        ClogLevel::Info => 1,
        ClogLevel::Success => 2,
        ClogLevel::Warning => 3,
        ClogLevel::Error => 4,
        ClogLevel::Trace => 5,
        ClogLevel::Announce => 6,
    }
}

/// The lowercase name of a level.
pub open spec fn spec_level_name(level: ClogLevel) -> Seq<char> {
    match level {
        ClogLevel::Debug => "debug"@,
        ClogLevel::Info => "info"@,
        ClogLevel::Success => "success"@,
        ClogLevel::Warning => "warning"@,
        ClogLevel::Error => "error"@,
        ClogLevel::Trace => "trace"@,
        ClogLevel::Announce => "announce"@,
    }
}

impl ClogLevel {
    /// Whether a message at `level` is logged under threshold `self`: exactly
    /// when the message's severity reaches the threshold's rank.
    pub fn should_log(&self, level: ClogLevel) -> (r: bool)
        ensures
            r == (severity_rank(level) >= threshold_rank(*self)),
    {
        match (self, level) {
            (Self::Info, Self::Debug) => false,
            (Self::Success, Self::Debug) => false,
            (Self::Success, Self::Info) => false,
            (Self::Warning, Self::Debug) => false,
            (Self::Warning, Self::Info) => false,
            (Self::Warning, Self::Success) => false,
            (Self::Error, Self::Debug) => false,
            (Self::Error, Self::Info) => false,
            (Self::Error, Self::Success) => false,
            (Self::Error, Self::Warning) => false,
            (_, _) => true,
        }
    }

    /// The lowercase name of the level.
    pub fn to_string(&self) -> (r: String)
        ensures
            r@ == spec_level_name(*self),
    {
        match self {
            Self::Debug => String::from_str("debug"),
            Self::Info => String::from_str("info"),
            Self::Success => String::from_str("success"),
            Self::Warning => String::from_str("warning"),
            Self::Error => String::from_str("error"),
            Self::Trace => String::from_str("trace"),
            Self::Announce => String::from_str("announce"),
        }
    }
}

} // verus!
