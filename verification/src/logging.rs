//! Where a log record goes on the host, by its level, and how the host is
//! told so.

use vstd::prelude::*;

verus! {

/// A place on the host that takes log text.
#[derive(Debug, Clone, Copy, PartialEq, Eq, Structural)]
pub enum LogTarget {
    /// The standard output of the module.
    ModuleOut,
    /// The standard error of the module.
    ModuleErr,
    /// The console, as an error.
    ConsoleError,
    /// The console, as a warning.
    ConsoleWarn,
    /// The console, as information.
    ConsoleInfo,
    /// The console, as a debug message.
    ConsoleDebug,
}

/// The level of a log record, from the most to the least severe.
#[derive(Debug, Clone, Copy, PartialEq, Eq, Structural)]
pub enum LogLevel {
    Error,
    Warn,
    Info,
    Debug,
    Trace,
}

/// The console target of a level. Traces go where debug messages go.
pub open spec fn target_spec(level: LogLevel) -> LogTarget {
    match level {
        LogLevel::Error => LogTarget::ConsoleError,
        LogLevel::Warn => LogTarget::ConsoleWarn,
        LogLevel::Info => LogTarget::ConsoleInfo,
        LogLevel::Debug => LogTarget::ConsoleDebug,
        LogLevel::Trace => LogTarget::ConsoleDebug,
    }
}

/// Picks the target for a record of the given level.
pub fn target_for_level(level: LogLevel) -> (target: LogTarget)
    ensures
        target == target_spec(level),
{
    match level {
        LogLevel::Error => LogTarget::ConsoleError,
        LogLevel::Warn => LogTarget::ConsoleWarn,
        LogLevel::Info => LogTarget::ConsoleInfo,
        LogLevel::Debug | LogLevel::Trace => LogTarget::ConsoleDebug,
    }
}

/// The flag of the host's log call that sends the text to the console.
pub const EM_LOG_CONSOLE: i32 = 1;

/// The flag that marks the text as a warning.
pub const EM_LOG_WARN: i32 = 2;

/// The flag that marks the text as an error.
pub const EM_LOG_ERROR: i32 = 4;

/// The flag that marks the text as a debug message.
pub const EM_LOG_DEBUG: i32 = 256;

/// The flag that marks the text as information.
pub const EM_LOG_INFO: i32 = 512;

/// The flag for the severity that `target` stands for. The standard output
/// of the module counts as information, its standard error as an error.
pub open spec fn severity_flag(target: LogTarget) -> i32 {
    match target {
        LogTarget::ModuleOut | LogTarget::ConsoleInfo => EM_LOG_INFO,
        LogTarget::ModuleErr | LogTarget::ConsoleError => EM_LOG_ERROR,
        LogTarget::ConsoleWarn => EM_LOG_WARN,
        LogTarget::ConsoleDebug => EM_LOG_DEBUG,
    }
}

/// Whether `target` is the console.
pub open spec fn is_console(target: LogTarget) -> bool {
    !(target is ModuleOut || target is ModuleErr)
}

/// The flags of the host's log call for `target`: the severity, and the
/// console flag on top of it for the console targets.
pub open spec fn flags_spec(target: LogTarget) -> int {
    severity_flag(target) + if is_console(target) {
        EM_LOG_CONSOLE as int
    } else {
        0
    }
}

/// Computes the flags to hand to the host's log call for `target`.
pub fn log_flags(target: LogTarget) -> (flags: i32)
    ensures
        flags == flags_spec(target),
{
    assert(1i32 | 4i32 == 5 && 1i32 | 2i32 == 3 && 1i32 | 512i32 == 513 && 1i32 | 256i32 == 257)
        by (bit_vector);
    match target {
        LogTarget::ModuleOut => EM_LOG_INFO,
        LogTarget::ModuleErr => EM_LOG_ERROR,
        LogTarget::ConsoleError => EM_LOG_CONSOLE | EM_LOG_ERROR,
        LogTarget::ConsoleWarn => EM_LOG_CONSOLE | EM_LOG_WARN,
        LogTarget::ConsoleInfo => EM_LOG_CONSOLE | EM_LOG_INFO,
        LogTarget::ConsoleDebug => EM_LOG_CONSOLE | EM_LOG_DEBUG,
    }
}

} // verus!
