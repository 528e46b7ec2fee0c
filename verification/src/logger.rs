use crate::hostcalls::LogLevel;
use crate::status::Status;
use vstd::prelude::*;

verus! {

/// The severity of a log record.
#[derive(Copy, Clone, PartialEq, Eq, Structural, Debug)]
pub enum Level {
    Error,
    Warn,
    Info,
    Debug,
    Trace,
}

/// The severity up to which log records are let through.
#[derive(Copy, Clone, PartialEq, Eq, Structural, Debug)]
pub enum LevelFilter {
    Off,
    Error,
    Warn,
    Info,
    Debug,
    Trace,
}

impl Level {
    /// The rank of this severity: 1 for errors, up to 5 for traces.
    pub open spec fn rank(self) -> int {
        match self {
            Level::Error => 1,
            Level::Warn => 2,
            Level::Info => 3,
            Level::Debug => 4,
            Level::Trace => 5,
        }
    }
}

impl LevelFilter {
    /// The highest rank that this filter lets through: 0 for none.
    pub open spec fn rank(self) -> int {
        match self {
            LevelFilter::Off => 0,
            LevelFilter::Error => 1,
            LevelFilter::Warn => 2,
            LevelFilter::Info => 3,
            LevelFilter::Debug => 4,
            LevelFilter::Trace => 5,
        }
    }

    /// The filter that lets through what the host logs at `level`.
    /// Nothing is logged as critical but a panic, so that level lets
    /// nothing through.
    pub open spec fn of(level: LogLevel) -> LevelFilter {
        match level {
            LogLevel::Trace => LevelFilter::Trace,
            LogLevel::Debug => LevelFilter::Debug,
            LogLevel::Info => LevelFilter::Info,
            LogLevel::Warn => LevelFilter::Warn,
            LogLevel::Error => LevelFilter::Error,
            LogLevel::Critical => LevelFilter::Off,
        }
    }

    /// The filter that lets through what the host logs at `level`.
    pub fn from_log_level(level: LogLevel) -> (r: LevelFilter)
        ensures
            r == Self::of(level),
    {
        match level {
            LogLevel::Trace => LevelFilter::Trace,
            LogLevel::Debug => LevelFilter::Debug,
            LogLevel::Info => LevelFilter::Info,
            LogLevel::Warn => LevelFilter::Warn,
            LogLevel::Error => LevelFilter::Error,
            LogLevel::Critical => LevelFilter::Off,
        }
    }

    /// The highest rank that this filter lets through: 0 for none.
    pub fn level_rank(self) -> (r: u8)
        ensures
            r == self.rank(),
    {
        match self {
            LevelFilter::Off => 0,
            LevelFilter::Error => 1,
            LevelFilter::Warn => 2,
            LevelFilter::Info => 3,
            LevelFilter::Debug => 4,
            LevelFilter::Trace => 5,
        }
    }
}

impl LogLevel {
    /// The host's level for a record of the severity `level`.
    pub open spec fn of(level: Level) -> LogLevel {
        match level {
            Level::Error => LogLevel::Error,
            Level::Warn => LogLevel::Warn,
            Level::Info => LogLevel::Info,
            Level::Debug => LogLevel::Debug,
            Level::Trace => LogLevel::Trace,
        }
    }

    /// The host's level for a record of the severity `level`.
    pub fn from_level(level: Level) -> (r: LogLevel)
        ensures
            r == Self::of(level),
    {
        match level {
            Level::Error => LogLevel::Error,
            Level::Warn => LogLevel::Warn,
            Level::Info => LogLevel::Info,
            Level::Debug => LogLevel::Debug,
            Level::Trace => LogLevel::Trace,
        }
    }
}

/// Hands log records on to the host, as far as its filter lets them
/// through.
pub struct Logger {
    max_level: LevelFilter,
}

impl Logger {
    /// The filter of this logger.
    pub closed spec fn max_level(&self) -> LevelFilter {
        self.max_level
    }

    /// A logger that lets nothing through.
    pub fn new() -> (r: Self)
        ensures
            r.max_level() == LevelFilter::Off,
    {
        Logger { max_level: LevelFilter::Off }
    }

    /// Lets through what the host logs at `level`, and nothing less
    /// severe.
    pub fn set_log_level(&mut self, level: LogLevel)
        ensures
            final(self).max_level() == LevelFilter::of(level),
    {
        self.max_level = LevelFilter::from_log_level(level);
    }

    /// Whether a record of the severity `level` is let through.
    pub fn enabled(&self, level: Level) -> (r: bool)
        ensures
            r == (level.rank() <= self.max_level().rank()),
    {
        let rank: u8 = match level {
            Level::Error => 1,
            Level::Warn => 2,
            Level::Info => 3,
            Level::Debug => 4,
            Level::Trace => 5,
        };
        rank <= self.max_level.level_rank()
    }

    /// Hands a record on to the host, through `host_log`, if the filter
    /// lets its severity through. The result is the host's answer, or
    /// no answer where the record was held back.
    pub fn log<F: FnOnce(LogLevel, &str) -> Result<(), Status>>(
        &self,
        level: Level,
        message: &str,
        host_log: F,
    ) -> (r: Option<Result<(), Status>>)
        requires
            call_requires(host_log, (LogLevel::of(level), message)),
        ensures
            level.rank() > self.max_level().rank() ==> r is None,
            level.rank() <= self.max_level().rank() ==> r is Some && call_ensures(
                host_log,
                (LogLevel::of(level), message),
                r->0,
            ),
    {
        if self.enabled(level) {
            Some(host_log(LogLevel::from_level(level), message))
        } else {
            None
        }
    }
}

} // verus!
