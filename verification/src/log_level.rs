//! Conversions between the terminal's log level and the levels of the `log`
//! crate.

use vstd::prelude::*;
use vstd::std_specs::convert::{FromSpecImpl, TryFromSpecImpl};

use crate::types::LogLevel;

verus! {

/// The levels of the `log` crate: error, warn, info, debug and trace.
#[verifier::external_type_specification]
pub struct ExLevel(log::Level);

/// Says that a [`LogLevel`] has no `log` level because it is
/// [`LogLevel::Off`].
#[derive(Debug, Clone, Copy, PartialEq, Eq, Structural)]
pub struct LogLevelIsOff;

/// The terminal's level for a `log` level. The terminal has no trace level:
/// trace is logged as debug.
pub open spec fn log_level_of(level: log::Level) -> LogLevel {
    match level {
        log::Level::Trace => LogLevel::Debug,
        log::Level::Debug => LogLevel::Debug,
        log::Level::Info => LogLevel::Info,
        log::Level::Warn => LogLevel::Warn,
        log::Level::Error => LogLevel::Error,
    }
}

/// The terminal's level for an optional `log` level: none turns logging off.
pub open spec fn log_level_of_option(level: Option<log::Level>) -> LogLevel {
    match level {
        Some(level) => log_level_of(level),
        None => LogLevel::Off,
    }
}

/// The `log` level of a terminal level, where it has one.
pub open spec fn level_of(level: LogLevel) -> Result<log::Level, LogLevelIsOff> {
    match level {
        LogLevel::Debug => Ok(log::Level::Debug),
        LogLevel::Info => Ok(log::Level::Info),
        LogLevel::Warn => Ok(log::Level::Warn),
        LogLevel::Error => Ok(log::Level::Error),
        LogLevel::Off => Err(LogLevelIsOff),
    }
}

impl FromSpecImpl<log::Level> for LogLevel {
    open spec fn obeys_from_spec() -> bool {
        true
    }

    open spec fn from_spec(level: log::Level) -> LogLevel {
        log_level_of(level)
    }
}

impl From<log::Level> for LogLevel {
    fn from(level: log::Level) -> (result: LogLevel) {
        match level {
            log::Level::Trace | log::Level::Debug => LogLevel::Debug,
            log::Level::Info => LogLevel::Info,
            log::Level::Warn => LogLevel::Warn,
            log::Level::Error => LogLevel::Error,
        }
    }
}

impl FromSpecImpl<Option<log::Level>> for LogLevel {
    open spec fn obeys_from_spec() -> bool {
        true
    }

    open spec fn from_spec(level: Option<log::Level>) -> LogLevel {
        log_level_of_option(level)
    }
}

impl From<Option<log::Level>> for LogLevel {
    fn from(level: Option<log::Level>) -> (result: LogLevel) {
        match level {
            Some(level) => LogLevel::from(level),
            None => LogLevel::Off,
        }
    }
}

impl TryFromSpecImpl<LogLevel> for log::Level {
    open spec fn obeys_try_from_spec() -> bool {
        true
    }

    open spec fn try_from_spec(level: LogLevel) -> Result<log::Level, LogLevelIsOff> {
        level_of(level)
    }
}

impl TryFrom<LogLevel> for log::Level {
    type Error = LogLevelIsOff;

    fn try_from(level: LogLevel) -> (result: Result<log::Level, LogLevelIsOff>) {
        match level {
            LogLevel::Debug => Ok(log::Level::Debug),
            LogLevel::Info => Ok(log::Level::Info),
            LogLevel::Warn => Ok(log::Level::Warn),
            LogLevel::Error => Ok(log::Level::Error),
            LogLevel::Off => Err(LogLevelIsOff),
        }
    }
}

/// Converting back gives the level itself, except for trace, which comes
/// back as debug.
pub proof fn law_level_round_trip(level: log::Level)
    ensures
        level_of(log_level_of(level)) == Ok::<log::Level, LogLevelIsOff>(
            if level == log::Level::Trace {
                log::Level::Debug
            } else {
                level
            },
        ),
{
}

/// A terminal level that has a `log` level is the terminal level of that
/// `log` level.
pub proof fn law_log_level_round_trip(level: LogLevel)
    ensures
        level_of(level) matches Ok(found) ==> log_level_of(found) == level,
        level_of(level) is Err <==> level == LogLevel::Off,
{
}

} // verus!
