//! The command line: its commands, and what each asks of the daemon and prints.
pub mod charge_thresholds;
pub mod daemon;
pub mod graphics;
pub mod profile;

use vstd::prelude::*;

verus! {

/// Utility for managing graphics and power profiles.
#[derive(Clone, Debug)]
pub enum Command {
    Daemon(daemon::Command),
    Profile(profile::Command),
    Graphics(graphics::Command),
    ChargeThresholds(charge_thresholds::Command),
}

impl Command {
    /// Whether the command talks to the daemon, which every command but `daemon` does.
    pub fn needs_client(&self) -> (b: bool)
        ensures
            b == !(*self is Daemon),
    {
        match self {
            Command::Daemon(_) => false,
            _ => true,
        }
    }
}

} // verus!
