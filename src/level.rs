//! Severity levels and the minimum-level filter.
use vstd::prelude::*;

verus! {

#[verifier::external_type_specification]
pub struct ExLevel(log::Level);

#[verifier::external_type_specification]
pub struct ExLevelFilter(log::LevelFilter);

/// The verbosity levels of the logger, ordered from least to most severe.
///
/// On the UI boundary a level travels as a small integer, Trace = 1 up to Error = 5.
#[derive(Debug, Clone, Copy, PartialEq, Eq, Structural)]
pub enum LogLevel {
    /// Very low priority, often extremely verbose, information.
    Trace,
    /// Lower priority information.
    Debug,
    /// Useful information.
    Info,
    /// Hazardous situations.
    Warn,
    /// Very serious errors.
    Error,
}

/// The position of a level in the severity order; also its wire code.
pub open spec fn rank(l: LogLevel) -> nat {
    match l {
        LogLevel::Trace => 1,
        LogLevel::Debug => 2,
        LogLevel::Info => 3,
        LogLevel::Warn => 4,
        LogLevel::Error => 5,
    }
}

/// The least rank that a filter lets through; `Off` lets nothing through.
pub open spec fn filter_rank(f: log::LevelFilter) -> nat {
    match f {
        log::LevelFilter::Off => 6,
        log::LevelFilter::Error => 5,
        log::LevelFilter::Warn => 4,
        log::LevelFilter::Info => 3,
        log::LevelFilter::Debug => 2,
        log::LevelFilter::Trace => 1,
    }
}

/// A record of level `l` passes the minimum filter `f`.
pub open spec fn passes(l: LogLevel, f: log::LevelFilter) -> bool {
    rank(l) >= filter_rank(f)
}

/// The `log` crate's level with the same meaning as `l`.
pub open spec fn to_log_level(l: LogLevel) -> log::Level {
    match l {
        LogLevel::Trace => log::Level::Trace,
        LogLevel::Debug => log::Level::Debug,
        LogLevel::Info => log::Level::Info,
        LogLevel::Warn => log::Level::Warn,
        LogLevel::Error => log::Level::Error,
    }
}

/// This library's level with the same meaning as `l`.
pub open spec fn from_log_level(l: log::Level) -> LogLevel {
    match l {
        log::Level::Trace => LogLevel::Trace,
        log::Level::Debug => LogLevel::Debug,
        log::Level::Info => LogLevel::Info,
        log::Level::Warn => LogLevel::Warn,
        log::Level::Error => LogLevel::Error,
    }
}

impl From<LogLevel> for log::Level {
    fn from(log_level: LogLevel) -> (r: log::Level)
        ensures
            r == to_log_level(log_level),
    {
        match log_level {
            LogLevel::Trace => log::Level::Trace,
            LogLevel::Debug => log::Level::Debug,
            LogLevel::Info => log::Level::Info,
            LogLevel::Warn => log::Level::Warn,
            LogLevel::Error => log::Level::Error,
        }
    }
}

impl vstd::std_specs::convert::FromSpecImpl<LogLevel> for log::Level {
    open spec fn obeys_from_spec() -> bool {
        true
    }

    open spec fn from_spec(v: LogLevel) -> log::Level {
        to_log_level(v)
    }
}

impl From<log::Level> for LogLevel {
    fn from(log_level: log::Level) -> (r: LogLevel)
        ensures
            r == from_log_level(log_level),
    {
        match log_level {
            log::Level::Trace => LogLevel::Trace,
            log::Level::Debug => LogLevel::Debug,
            log::Level::Info => LogLevel::Info,
            log::Level::Warn => LogLevel::Warn,
            log::Level::Error => LogLevel::Error,
        }
    }
}

impl vstd::std_specs::convert::FromSpecImpl<log::Level> for LogLevel {
    open spec fn obeys_from_spec() -> bool {
        true
    }

    open spec fn from_spec(v: log::Level) -> LogLevel {
        from_log_level(v)
    }
}

/// Converting to the `log` crate's level and back gives the level unchanged.
pub proof fn lemma_log_level_round_trip(l: LogLevel)
    ensures
        from_log_level(to_log_level(l)) == l,
{
}

impl LogLevel {
    /// The integer that stands for this level on the UI boundary.
    pub fn code(self) -> (r: u16)
        ensures
            r == rank(self),
    {
        match self {
            LogLevel::Trace => 1,
            LogLevel::Debug => 2,
            LogLevel::Info => 3,
            LogLevel::Warn => 4,
            LogLevel::Error => 5,
        }
    }

    /// The level with the given wire code, if there is one.
    pub fn from_code(code: u16) -> (r: Option<LogLevel>)
        ensures
            r matches Some(l) ==> rank(l) == code,
            r is None <==> !(1 <= code <= 5),
    {
        match code {
            1 => Some(LogLevel::Trace),
            2 => Some(LogLevel::Debug),
            3 => Some(LogLevel::Info),
            4 => Some(LogLevel::Warn),
            5 => Some(LogLevel::Error),
            _ => None,
        }
    }

    /// Whether a record of this level passes the minimum filter `filter`.
    pub fn passes(self, filter: log::LevelFilter) -> (r: bool)
        ensures
            r == passes(self, filter),
    {
        let min: u16 = match filter {
            log::LevelFilter::Off => 6,
            log::LevelFilter::Error => 5,
            log::LevelFilter::Warn => 4,
            log::LevelFilter::Info => 3,
            log::LevelFilter::Debug => 2,
            log::LevelFilter::Trace => 1,
        };
        self.code() >= min
    }
}

} // verus!
