//! Translation between the host's numeric log-severity scale, the internal
//! five-level enumeration, and the general-purpose logging severity scale.

use vstd::prelude::*;

verus! {

/// Host code for an error condition.
pub const LOG_ERR: u32 = 3;

/// Host code for a warning.
pub const LOG_WARNING: u32 = 4;

/// Host code for a normal but significant condition.
pub const LOG_NOTICE: u32 = 5;

/// Host code for an informational message.
pub const LOG_INFO: u32 = 6;

/// Host code for a debug message.
pub const LOG_DEBUG: u32 = 7;

/// The available levels that the host exposes to log messages.
#[derive(Debug, Clone, Copy, PartialEq, Eq, Structural)]
pub enum LogLevel {
    Error,
    Warning,
    Notice,
    Info,
    Debug,
}

/// One level of the general-purpose logging severity scale, ordered from the
/// least to the most verbose.
#[derive(Debug, Clone, Copy, PartialEq, Eq, Structural)]
pub enum Level {
    Error,
    Warn,
    Info,
    Debug,
    Trace,
}

/// A verbosity ceiling of the general-purpose logging scale: `Off`, or a
/// level together with everything less verbose than it.
#[derive(Debug, Clone, Copy, PartialEq, Eq, Structural)]
pub enum LevelFilter {
    Off,
    Error,
    Warn,
    Info,
    Debug,
    Trace,
}

impl LogLevel {
    /// The host's numeric code for this level.
    pub open spec fn spec_code(self) -> u32 {
        match self {
            LogLevel::Error => LOG_ERR,
            LogLevel::Warning => LOG_WARNING,
            LogLevel::Notice => LOG_NOTICE,
            LogLevel::Info => LOG_INFO,
            LogLevel::Debug => LOG_DEBUG,
        }
    }

    /// The host's numeric code for this level.
    pub fn code(self) -> (c: u32)
        ensures
            c == self.spec_code(),
    {
        match self {
            LogLevel::Error => LOG_ERR,
            LogLevel::Warning => LOG_WARNING,
            LogLevel::Notice => LOG_NOTICE,
            LogLevel::Info => LOG_INFO,
            LogLevel::Debug => LOG_DEBUG,
        }
    }

    /// The level denoted by a host severity code, if the code is one of the
    /// five recognized ones.
    pub open spec fn spec_try_from(s: u32) -> Option<LogLevel> {
        if s == LOG_ERR {
            Some(LogLevel::Error)
        } else if s == LOG_WARNING {
            Some(LogLevel::Warning)
        } else if s == LOG_NOTICE {
            Some(LogLevel::Notice)
        } else if s == LOG_INFO {
            Some(LogLevel::Info)
        } else if s == LOG_DEBUG {
            Some(LogLevel::Debug)
        } else {
            None
        }
    }

    /// Attempts to convert a number representing a host logging level into
    /// the corresponding level; unrecognized codes give `None`.
    pub fn try_from(s: u32) -> (r: Option<LogLevel>)
        ensures
            r == LogLevel::spec_try_from(s),
    {
        if s == LOG_ERR {
            Some(LogLevel::Error)
        } else if s == LOG_WARNING {
            Some(LogLevel::Warning)
        } else if s == LOG_NOTICE {
            Some(LogLevel::Notice)
        } else if s == LOG_INFO {
            Some(LogLevel::Info)
        } else if s == LOG_DEBUG {
            Some(LogLevel::Debug)
        } else {
            None
        }
    }
}

/// Mapping a host level to its code and back returns the level itself.
pub proof fn lemma_level_code_round_trip(l: LogLevel)
    ensures
        LogLevel::spec_try_from(l.spec_code()) == Some(l),
{
}

/// A host code maps to some level exactly when it is one of the five
/// recognized codes, and mapping that level back gives the same code.
pub proof fn lemma_code_level_round_trip(s: u32)
    ensures
        LogLevel::spec_try_from(s) is Some <==> (LOG_ERR <= s <= LOG_DEBUG),
        match LogLevel::spec_try_from(s) {
            Some(l) => l.spec_code() == s,
            None => true,
        },
{
}

impl Level {
    /// Position on the verbosity scale: greater means more verbose.
    pub open spec fn verbosity(self) -> int {
        match self {
            Level::Error => 1,
            Level::Warn => 2,
            Level::Info => 3,
            Level::Debug => 4,
            Level::Trace => 5,
        }
    }

    /// True when messages at this level pass a verbosity ceiling of `f`.
    pub open spec fn spec_passes(self, f: LevelFilter) -> bool {
        self.verbosity() <= f.verbosity()
    }

    /// Decides whether messages at this level pass the verbosity ceiling `f`.
    pub fn passes(self, f: LevelFilter) -> (r: bool)
        ensures
            r == self.spec_passes(f),
    {
        self.verbosity_u32() <= f.verbosity_u32()
    }

    /// Position on the verbosity scale, as a machine integer.
    pub fn verbosity_u32(self) -> (v: u32)
        ensures
            v == self.verbosity(),
    {
        match self {
            Level::Error => 1,
            Level::Warn => 2,
            Level::Info => 3,
            Level::Debug => 4,
            Level::Trace => 5,
        }
    }
}

impl LevelFilter {
    /// Position on the verbosity scale: `Off` admits nothing.
    pub open spec fn verbosity(self) -> int {
        match self {
            LevelFilter::Off => 0,
            LevelFilter::Error => 1,
            LevelFilter::Warn => 2,
            LevelFilter::Info => 3,
            LevelFilter::Debug => 4,
            LevelFilter::Trace => 5,
        }
    }

    /// Position on the verbosity scale, as a machine integer.
    pub fn verbosity_u32(self) -> (v: u32)
        ensures
            v == self.verbosity(),
    {
        match self {
            LevelFilter::Off => 0,
            LevelFilter::Error => 1,
            LevelFilter::Warn => 2,
            LevelFilter::Info => 3,
            LevelFilter::Debug => 4,
            LevelFilter::Trace => 5,
        }
    }

    /// The more verbose of two ceilings.
    pub fn max(self, other: LevelFilter) -> (r: LevelFilter)
        ensures
            r.verbosity() == if self.verbosity() >= other.verbosity() {
                self.verbosity()
            } else {
                other.verbosity()
            },
            r == self || r == other,
    {
        if self.verbosity_u32() >= other.verbosity_u32() {
            self
        } else {
            other
        }
    }
}

/// The host level a general-purpose level maps to; the two most verbose
/// levels both collapse to the host's debug level.
pub open spec fn spec_level_to_log_level(lvl: Level) -> LogLevel {
    match lvl {
        Level::Error => LogLevel::Error,
        Level::Warn => LogLevel::Warning,
        Level::Info => LogLevel::Info,
        Level::Debug => LogLevel::Debug,
        Level::Trace => LogLevel::Debug,
    }
}

impl core::convert::From<Level> for LogLevel {
    /// Maps the general-purpose scale onto the host's levels; the two most
    /// verbose source levels both collapse to the host's debug level.
    fn from(lvl: Level) -> (r: LogLevel) {
        match lvl {
            Level::Error => LogLevel::Error,
            Level::Warn => LogLevel::Warning,
            Level::Info => LogLevel::Info,
            Level::Debug => LogLevel::Debug,
            Level::Trace => LogLevel::Debug,
        }
    }
}

impl vstd::std_specs::convert::FromSpecImpl<Level> for LogLevel {
    open spec fn obeys_from_spec() -> bool {
        true
    }

    open spec fn from_spec(lvl: Level) -> LogLevel {
        spec_level_to_log_level(lvl)
    }
}

} // verus!
