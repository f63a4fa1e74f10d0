//! How much the command-line surface prints.

use vstd::prelude::*;

verus! {

/// Output levels, from the quietest.
#[derive(Clone, Copy, Debug, PartialEq, Eq, Structural)]
pub enum LogLevel {
    Quiet,
    Error,
    Info,
}

pub open spec fn rank(l: LogLevel) -> int {
    match l {
        LogLevel::Quiet => 0,
        LogLevel::Error => 1,
        LogLevel::Info => 2,
    }
}

/// The name of a level.
pub open spec fn level_name(l: LogLevel) -> Seq<char> {
    match l {
        LogLevel::Quiet => "quiet"@,
        LogLevel::Error => "error"@,
        LogLevel::Info => "info"@,
    }
}

impl LogLevel {
    /// The level used when none is configured.
    pub fn default_level() -> (r: LogLevel)
        ensures
            r == LogLevel::Info,
    {
        LogLevel::Info
    }

    /// Whether a message of level `logging` is printed at this level.
    pub fn is_writable(&self, logging: &LogLevel) -> (r: bool)
        ensures
            r == (rank(*self) >= rank(*logging)),
    {
        let a: u8 = match self {
            LogLevel::Quiet => 0,
            LogLevel::Error => 1,
            LogLevel::Info => 2,
        };
        let b: u8 = match logging {
            LogLevel::Quiet => 0,
            LogLevel::Error => 1,
            LogLevel::Info => 2,
        };
        a >= b
    }

    /// The names a level can be given by.
    pub fn passible_values() -> (r: [&'static str; 4])
        ensures
            r@[0]@ == "quiet"@,
            r@[1]@ == "info"@,
            r@[2]@ == "all"@,
            r@[3]@ == "error"@,
    {
        ["quiet", "info", "all", "error"]
    }

    /// The name of the level.
    pub fn as_str(&self) -> (r: &'static str)
        ensures
            r@ == level_name(*self),
    {
        match self {
            LogLevel::Quiet => "quiet",
            LogLevel::Error => "error",
            LogLevel::Info => "info",
        }
    }

    /// The level a name stands for: `quiet`, `error`, or `info` (also
    /// written `all`).
    pub fn from_str(s: &str) -> (r: Option<LogLevel>)
        ensures
            r == if s@ == "quiet"@ {
                Some(LogLevel::Quiet)
            } else if s@ == "info"@ || s@ == "all"@ {
                Some(LogLevel::Info)
            } else if s@ == "error"@ {
                Some(LogLevel::Error)
            } else {
                None
            },
    {
        if crate::text::str_eq(s, "quiet") {
            Some(LogLevel::Quiet)
        } else if crate::text::str_eq(s, "info") || crate::text::str_eq(s, "all") {
            Some(LogLevel::Info)
        } else if crate::text::str_eq(s, "error") {
            Some(LogLevel::Error)
        } else {
            None
        }
    }
}

} // verus!
