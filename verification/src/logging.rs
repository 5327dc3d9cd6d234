//! How much to log and where: read from the configuration, handed to
//! whoever sets the log sinks up.

use crate::config::LoggingConfig;
use crate::text::same_text;
use vstd::prelude::*;

verus! {

/// How much is logged, from the most to the least.
#[derive(Debug, Clone, Copy, PartialEq, Eq, Structural)]
pub enum LogLevel {
    Trace,
    Debug,
    Info,
    Warn,
    Error,
}

/// How the log file is rotated.
#[derive(Debug, Clone, Copy, PartialEq, Eq, Structural)]
pub enum Rotation {
    Daily,
    Never,
}

/// The logging to set up. `file` is the rotation of the log file, where
/// there is to be one.
#[derive(Debug, Clone, Copy, PartialEq, Eq, Structural)]
pub struct LogPlan {
    pub level: LogLevel,
    pub file: Option<Rotation>,
    pub console: bool,
}

/// Why logging cannot be set up.
#[derive(Debug, Clone, PartialEq, Eq)]
pub enum LogError {
    /// The configured level is none of the five.
    InvalidLevel { given: String },
    /// Logging is on, but neither the console nor a file is to get it.
    NoOutput,
}

/// A `LogError` with its text as a character sequence.
pub enum LogErrorView {
    InvalidLevel { given: Seq<char> },
    NoOutput,
}

impl View for LogError {
    type V = LogErrorView;

    open spec fn view(&self) -> LogErrorView {
        match *self {
            LogError::InvalidLevel { given } => LogErrorView::InvalidLevel { given: given@ },
            LogError::NoOutput => LogErrorView::NoOutput,
        }
    }
}

/// What a `LogError` says in words.
pub open spec fn log_error_text(e: LogErrorView) -> Seq<char> {
    match e {
        LogErrorView::InvalidLevel { given } => "Invalid log level: "@ + given
            + ". Valid levels: trace, debug, info, warn, error"@,
        LogErrorView::NoOutput => "Either console_output or file_output must be enabled"@,
    }
}

impl LogError {
    /// The error in words.
    pub fn message(&self) -> (m: String)
        ensures
            m@ == log_error_text(self@),
    {
        match self {
            LogError::InvalidLevel { given } => {
                let mut m = "Invalid log level: ".to_owned();
                m.append(given.as_str());
                m.append(". Valid levels: trace, debug, info, warn, error");
                m
            },
            LogError::NoOutput => "Either console_output or file_output must be enabled".to_owned(),
        }
    }
}

/// `s` in lower case, as `str::to_lowercase` of the standard library gives
/// it: by the Unicode rules, which reach beyond the letters `A` to `Z`.
pub uninterp spec fn lowercase(s: Seq<char>) -> Seq<char>;

/// Calls `str::to_lowercase`.
///
/// Trusted: that the result depends on the characters of `s` alone.
#[verifier::external_body]
fn to_lowercase(s: &str) -> (lower: String)
    ensures
        lower@ == lowercase(s@),
{
    s.to_lowercase()
}

/// The level with the name `name`, which is written in lower case.
pub open spec fn level_named(name: Seq<char>) -> Option<LogLevel> {
    if name == "trace"@ {
        Some(LogLevel::Trace)
    } else if name == "debug"@ {
        Some(LogLevel::Debug)
    } else if name == "info"@ {
        Some(LogLevel::Info)
    } else if name == "warn"@ {
        Some(LogLevel::Warn)
    } else if name == "error"@ {
        Some(LogLevel::Error)
    } else {
        None
    }
}

/// The level with the name `name`, which is written in lower case.
pub fn level_from_name(name: &str) -> (level: Option<LogLevel>)
    ensures
        level == level_named(name@),
{
    if same_text(name, "trace") {
        Some(LogLevel::Trace)
    } else if same_text(name, "debug") {
        Some(LogLevel::Debug)
    } else if same_text(name, "info") {
        Some(LogLevel::Info)
    } else if same_text(name, "warn") {
        Some(LogLevel::Warn)
    } else if same_text(name, "error") {
        Some(LogLevel::Error)
    } else {
        None
    }
}

/// What `parse_log_level` makes of `level_str`.
pub open spec fn parsed_level(level_str: Seq<char>) -> Result<LogLevel, LogErrorView> {
    match level_named(lowercase(level_str)) {
        Some(level) => Ok(level),
        None => Err(LogErrorView::InvalidLevel { given: level_str }),
    }
}

/// The level that `level_str` names, in whatever case it is written.
pub fn parse_log_level(level_str: &str) -> (r: Result<LogLevel, LogError>)
    ensures
        match r {
            Ok(level) => parsed_level(level_str@) == Ok::<LogLevel, LogErrorView>(level),
            Err(e) => parsed_level(level_str@) == Err::<LogLevel, LogErrorView>(e@),
        },
{
    let lower = to_lowercase(level_str);
    match level_from_name(lower.as_str()) {
        Some(level) => Ok(level),
        None => Err(LogError::InvalidLevel { given: level_str.to_owned() }),
    }
}

/// What `init_logging` decides.
pub open spec fn logging_plan(config: LoggingConfig, verbose: bool) -> Result<
    Option<LogPlan>,
    LogErrorView,
> {
    if !config.enabled {
        Ok(None)
    } else {
        let level = if verbose {
            Ok(LogLevel::Debug)
        } else {
            parsed_level(config.log_level@)
        };
        match level {
            Err(e) => Err(e),
            Ok(level) => if config.file_output {
                Ok(
                    Some(
                        LogPlan {
                            level,
                            file: Some(
                                if config.rotate_enabled {
                                    Rotation::Daily
                                } else {
                                    Rotation::Never
                                },
                            ),
                            console: config.console_output,
                        },
                    ),
                )
            } else if config.console_output {
                Ok(Some(LogPlan { level, file: None, console: true }))
            } else {
                Err(LogErrorView::NoOutput)
            },
        }
    }
}

/// Decides the logging to set up: none where logging is off; else the level
/// (`Debug` where `verbose`, whatever the configuration says), the file with
/// its rotation and the console, of which one at least has to be on.
pub fn init_logging(config: &LoggingConfig, verbose: bool) -> (r: Result<Option<LogPlan>, LogError>)
    ensures
        match r {
            Ok(plan) => logging_plan(*config, verbose) == Ok::<Option<LogPlan>, LogErrorView>(plan),
            Err(e) => logging_plan(*config, verbose) == Err::<Option<LogPlan>, LogErrorView>(e@),
        },
{
    if !config.enabled {
        return Ok(None);
    }
    let level = if verbose {
        LogLevel::Debug
    } else {
        match parse_log_level(config.log_level.as_str()) {
            Ok(level) => level,
            Err(e) => {
                return Err(e);
            },
        }
    };
    if config.file_output {
        let rotation = if config.rotate_enabled {
            Rotation::Daily
        } else {
            Rotation::Never
        };
        Ok(Some(LogPlan { level, file: Some(rotation), console: config.console_output }))
    } else if config.console_output {
        Ok(Some(LogPlan { level, file: None, console: true }))
    } else {
        Err(LogError::NoOutput)
    }
}

} // verus!
