//! What the command line says about logging.

use vstd::prelude::*;
use vstd::std_specs::convert::{FromSpec, FromSpecImpl};

verus! {

/// The lowest level of log messages to show, as given on the command line.
#[derive(Debug, Copy, Clone, PartialEq, Eq, PartialOrd, Ord, Structural)]
pub enum LogLevel {
    Nothing,
    Error,
    Warn,
    Info,
    Debug,
    Trace,
}

/// The lowest level of log messages that the logger lets through.
#[derive(Debug, Copy, Clone, PartialEq, Eq, PartialOrd, Ord, Structural)]
pub enum LevelFilter {
    Off,
    Error,
    Warn,
    Info,
    Debug,
    Trace,
}

impl From<LogLevel> for LevelFilter {
    /// The filter for a level given on the command line: `nothing` switches logging off,
    /// every other level stands for itself.
    fn from(value: LogLevel) -> (filter: Self) {
        match value {
            LogLevel::Nothing => LevelFilter::Off,
            LogLevel::Error => LevelFilter::Error,
            LogLevel::Warn => LevelFilter::Warn,
            LogLevel::Info => LevelFilter::Info,
            LogLevel::Debug => LevelFilter::Debug,
            LogLevel::Trace => LevelFilter::Trace,
        }
    }
}

impl FromSpecImpl<LogLevel> for LevelFilter {
    open spec fn obeys_from_spec() -> bool {
        true
    }

    open spec fn from_spec(value: LogLevel) -> Self {
        match value {
            LogLevel::Nothing => LevelFilter::Off,
            LogLevel::Error => LevelFilter::Error,
            LogLevel::Warn => LevelFilter::Warn,
            LogLevel::Info => LevelFilter::Info,
            LogLevel::Debug => LevelFilter::Debug,
            LogLevel::Trace => LevelFilter::Trace,
        }
    }
}

/// The options of the command line that are about logging. At most one of them is given.
#[derive(Debug, Copy, Clone)]
pub struct Cli {
    /// Lowest log level to show.
    pub log_level: Option<LogLevel>,
    /// Show more log output.
    pub verbose: bool,
    /// Show less log output.
    pub quiet: bool,
}

impl Cli {
    /// The filter that the command line asks for, or `None` where it asks for none:
    /// `verbose` shows messages from `info` on, `quiet` from `warn` on, and a level shows
    /// messages from that level on.
    pub fn log_level_filter(&self) -> (filter: Option<LevelFilter>)
        ensures
            filter == if self.verbose {
                Some(LevelFilter::Info)
            } else if self.quiet {
                Some(LevelFilter::Warn)
            } else {
                match self.log_level {
                    Some(level) => Some(<LevelFilter as FromSpec<LogLevel>>::from_spec(level)),
                    None => None,
                }
            },
    {
        if self.verbose {
            return Some(LevelFilter::Info);
        }
        if self.quiet {
            return Some(LevelFilter::Warn);
        }
        if let Some(level) = self.log_level {
            return Some(LevelFilter::from(level));
        }
        None
    }
}

} // verus!
