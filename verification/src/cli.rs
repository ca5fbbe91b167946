//! Startup configuration: the listen address and the log verbosity, parsed
//! once by the command-line collaborator and read nowhere else.

use vstd::prelude::*;

verus! {

/// Log verbosity selected on the command line.
#[derive(Debug, PartialEq, Eq)]
pub enum LogLevel {
    Error,
    Info,
    Debug,
    Trace,
}

/// The command-line options the process takes.
pub struct Cli {
    /// Log errors only, whatever `verbosity` says.
    pub quiet: bool,
    /// How many times the verbose flag was given.
    pub verbosity: u8,
    /// Listen address, when one was given.
    pub bind: Option<String>,
}

impl Cli {
    /// The log level the flags select: quiet forces errors only; otherwise
    /// no verbose flag means info, one means debug, and more mean trace.
    pub fn log_level(&self) -> (l: LogLevel)
        ensures
            self.quiet ==> l == LogLevel::Error,
            !self.quiet && self.verbosity == 0 ==> l == LogLevel::Info,
            !self.quiet && self.verbosity == 1 ==> l == LogLevel::Debug,
            !self.quiet && self.verbosity >= 2 ==> l == LogLevel::Trace,
    {
        if self.quiet {
            LogLevel::Error
        } else {
            match self.verbosity {
                0 => LogLevel::Info,
                1 => LogLevel::Debug,
                _ => LogLevel::Trace,
            }
        }
    }

    /// The address to listen on: the one given, else the default.
    pub fn bind_addr(&self) -> (r: &str)
        ensures
            self.bind matches Some(b) ==> r@ == b@,
            self.bind is None ==> r@ == "0.0.0.0:8090"@,
    {
        match &self.bind {
            Some(b) => b.as_str(),
            None => "0.0.0.0:8090",
        }
    }
}

} // verus!
