//! `graphics`: queries or sets the graphics mode and the discrete GPU's power.
use vstd::prelude::*;

verus! {

/// Query or set the graphics mode: without a subcommand the mode is queried.
#[derive(Clone, Copy, Debug, PartialEq, Eq, Structural)]
pub struct Command {
    pub subcommand: Option<Subcommand>,
}

/// The graphics subcommands.
#[derive(Clone, Copy, Debug, PartialEq, Eq, Structural)]
pub enum Subcommand {
    /// Like integrated, but the dGPU is available for compute
    Compute,
    /// Set the graphics mode to Hybrid (PRIME)
    Hybrid,
    /// Set the graphics mode to integrated
    Integrated,
    /// Set the graphics mode to NVIDIA
    Nvidia,
    /// Determines if the system has switchable graphics
    Switchable,
    /// Query or set the discrete graphics power state
    Power { state: Option<State> },
}

/// The power state of the discrete GPU.
#[derive(Clone, Copy, Debug, PartialEq, Eq, Structural)]
pub enum State {
    Auto,
    On,
    Off,
}

/// What a graphics command asks of the daemon.
#[derive(Clone, Copy, Debug, PartialEq, Eq)]
pub enum GraphicsRequest {
    /// Print the graphics mode.
    QueryGraphics,
    /// Switch to the named mode.
    SetGraphics(&'static str),
    /// Print whether the graphics are switchable.
    QuerySwitchable,
    /// Let the daemon manage the discrete GPU's power.
    AutoPower,
    /// Turn the discrete GPU on or off.
    SetPower(bool),
    /// Print whether the discrete GPU is on.
    QueryPower,
}

impl Command {
    pub fn run(&self) -> (r: GraphicsRequest)
        ensures
            match self.subcommand {
                None => r == GraphicsRequest::QueryGraphics,
                Some(Subcommand::Compute) => r matches GraphicsRequest::SetGraphics(m) && m@ == "compute"@,
                Some(Subcommand::Hybrid) => r matches GraphicsRequest::SetGraphics(m) && m@ == "hybrid"@,
                Some(Subcommand::Integrated) => r matches GraphicsRequest::SetGraphics(m) && m@ == "integrated"@,
                Some(Subcommand::Nvidia) => r matches GraphicsRequest::SetGraphics(m) && m@ == "nvidia"@,
                Some(Subcommand::Switchable) => r == GraphicsRequest::QuerySwitchable,
                Some(Subcommand::Power { state: Some(State::Auto) }) => r == GraphicsRequest::AutoPower,
                Some(Subcommand::Power { state: Some(State::On) }) => r == GraphicsRequest::SetPower(true),
                Some(Subcommand::Power { state: Some(State::Off) }) => r == GraphicsRequest::SetPower(false),
                Some(Subcommand::Power { state: None }) => r == GraphicsRequest::QueryPower,
            },
    {
        match self.subcommand {
            None => GraphicsRequest::QueryGraphics,
            Some(Subcommand::Compute) => GraphicsRequest::SetGraphics("compute"),
            Some(Subcommand::Hybrid) => GraphicsRequest::SetGraphics("hybrid"),
            Some(Subcommand::Integrated) => GraphicsRequest::SetGraphics("integrated"),
            Some(Subcommand::Nvidia) => GraphicsRequest::SetGraphics("nvidia"),
            Some(Subcommand::Switchable) => GraphicsRequest::QuerySwitchable,
            Some(Subcommand::Power { state: Some(State::Auto) }) => GraphicsRequest::AutoPower,
            Some(Subcommand::Power { state: Some(State::On) }) => GraphicsRequest::SetPower(true),
            Some(Subcommand::Power { state: Some(State::Off) }) => GraphicsRequest::SetPower(false),
            Some(Subcommand::Power { state: None }) => GraphicsRequest::QueryPower,
        }
    }
}

/// What is printed of whether the graphics are switchable.
pub fn switchable_text(switchable: bool) -> (s: &'static str)
    ensures
        s@ == (if switchable {
            "switchable"@
        } else {
            "not switchable"@
        }),
{
    if switchable {
        "switchable"
    } else {
        "not switchable"
    }
}

/// What is printed of the discrete GPU's power.
pub fn power_text(on: bool) -> (s: &'static str)
    ensures
        s@ == (if on {
            "on (discrete)"@
        } else {
            "off (discrete)"@
        }),
{
    if on {
        "on (discrete)"
    } else {
        "off (discrete)"
    }
}

} // verus!
