//! `daemon`: runs the daemon, as root only.
use vstd::prelude::*;

verus! {

/// How much the daemon logs.
#[derive(Clone, Copy, Debug, PartialEq, Eq, Structural)]
pub enum LogLevel {
    Off,
    Info,
    Debug,
}

/// Registers the D-Bus service and answers its clients.
#[derive(Clone, Copy, Debug, PartialEq, Eq, Structural)]
pub struct Command {
    /// Logs nothing.
    pub quiet: bool,
    /// Logs debugging output too.
    pub verbose: bool,
}

impl Command {
    /// The log level: off when quiet, debug when verbose, info otherwise.
    pub fn log_level(&self) -> (l: LogLevel)
        ensures
            l == (if self.quiet {
                LogLevel::Off
            } else if self.verbose {
                LogLevel::Debug
            } else {
                LogLevel::Info
            }),
    {
        if self.quiet {
            LogLevel::Off
        } else if self.verbose {
            LogLevel::Debug
        } else {
            LogLevel::Info
        }
    }

    /// Whether the daemon may start: only with the effective user id of root.
    pub fn run(&self, euid: u32) -> (r: Result<(), &'static str>)
        ensures
            r is Ok <==> euid == 0,
            r matches Err(m) ==> m@ == "must be run as root"@,
    {
        if euid == 0 {
            Ok(())
        } else {
            Err("must be run as root")
        }
    }
}

} // verus!
