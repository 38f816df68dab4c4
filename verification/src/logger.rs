//! How much the program logs, and where.

use vstd::prelude::*;

verus! {

/// The pattern of a log line: local time, level, module and message.
pub const CONSOLE_PATTERN: &'static str =
    "{d(%Y-%m-%d %H:%M:%S %Z)(local)} - {h({l})} - [{M}] - {m}{n}";

/// The name of the one appender.
pub const CONSOLE_APPENDER: &'static str = "console";

/// The most detailed level that is logged.
#[derive(Debug, Clone, Copy, PartialEq, Eq, Structural)]
pub enum LogLevel {
    Info,
    Debug,
    Trace,
}

/// The stream that log lines go to.
#[derive(Debug, Clone, Copy, PartialEq, Eq, Structural)]
pub enum LogTarget {
    Stdout,
    Stderr,
}

/// What the logger is set up with.
#[derive(Debug, Clone, Copy, PartialEq, Eq, Structural)]
pub struct LoggerSetup {
    pub level: LogLevel,
    pub target: LogTarget,
}

/// The level for `verbose` repetitions of the verbosity flag.
pub open spec fn level_of(verbose: u8) -> LogLevel {
    if verbose == 0 {
        LogLevel::Info
    } else if verbose == 1 {
        LogLevel::Debug
    } else {
        LogLevel::Trace
    }
}

/// The setup for `verbose` repetitions of the verbosity flag: none logs
/// information, one adds debugging, more add tracing. Lines go to the
/// standard error stream with `stderr`, else to the standard output.
pub fn setup_logger_by_verbose(verbose: u8, stderr: bool) -> (setup: LoggerSetup)
    ensures
        setup.level == level_of(verbose),
        setup.target == if stderr {
            LogTarget::Stderr
        } else {
            LogTarget::Stdout
        },
{
    let level = match verbose {
        0 => LogLevel::Info,
        1 => LogLevel::Debug,
        _ => LogLevel::Trace,
    };
    LoggerSetup {
        level,
        target: if stderr {
            LogTarget::Stderr
        } else {
            LogTarget::Stdout
        },
    }
}

} // verus!
