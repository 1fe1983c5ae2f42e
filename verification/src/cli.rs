//! The choices a caller makes on the command line, and the names by which
//! the logger knows them.

use vstd::prelude::*;

verus! {

/// When terminal colour is used.
#[derive(Debug, Clone, Copy, PartialEq, Eq)]
pub enum ColorDisplay {
    Auto,
    Always,
    Never,
}

/// The least severe log level that is shown.
#[derive(Debug, Clone, Copy, PartialEq, Eq)]
pub enum LogLevel {
    Trace,
    Debug,
    Info,
    Warn,
    Error,
}

impl ColorDisplay {
    /// The write style's name: the variant in lower case.
    pub fn name(&self) -> (name: &'static str)
        ensures
            name@ == match *self {
                ColorDisplay::Auto => "auto"@,
                ColorDisplay::Always => "always"@,
                ColorDisplay::Never => "never"@,
            },
    {
        match self {
            ColorDisplay::Auto => "auto",
            ColorDisplay::Always => "always",
            ColorDisplay::Never => "never",
        }
    }
}

impl LogLevel {
    /// The level's name as a log filter: the variant in lower case.
    pub fn name(&self) -> (name: &'static str)
        ensures
            name@ == match *self {
                LogLevel::Trace => "trace"@,
                LogLevel::Debug => "debug"@,
                LogLevel::Info => "info"@,
                LogLevel::Warn => "warn"@,
                LogLevel::Error => "error"@,
            },
    {
        match self {
            LogLevel::Trace => "trace",
            LogLevel::Debug => "debug",
            LogLevel::Info => "info",
            LogLevel::Warn => "warn",
            LogLevel::Error => "error",
        }
    }
}

} // verus!
