//! `profile`: queries or sets the power profile.
use crate::text::{chars_of, decimal, push_decimal, push_str, string_of};
use crate::Profile;
use vstd::prelude::*;

verus! {

/// A power profile named on the command line.
#[derive(Clone, Copy, Debug, PartialEq, Eq, Structural)]
pub enum PowerProfile {
    Battery,
    Balanced,
    Performance,
}

/// Query or set the power profile: without an argument the profile is queried,
/// otherwise that profile is set.
#[derive(Clone, Copy, Debug, PartialEq, Eq, Structural)]
pub struct Command {
    pub profile: Option<PowerProfile>,
}

impl Command {
    /// The profile to set, or none to print the current one.
    pub fn run(&self) -> (r: Option<Profile>)
        ensures
            r == match self.profile {
                Some(PowerProfile::Battery) => Some(Profile::Battery),
                Some(PowerProfile::Balanced) => Some(Profile::Balanced),
                Some(PowerProfile::Performance) => Some(Profile::Performance),
                None => None,
            },
    {
        match self.profile {
            Some(PowerProfile::Battery) => Some(Profile::Battery),
            Some(PowerProfile::Balanced) => Some(Profile::Balanced),
            Some(PowerProfile::Performance) => Some(Profile::Performance),
            None => None,
        }
    }
}

/// The line that names the current profile, `?` when the daemon did not say.
pub open spec fn profile_line(profile: Option<Seq<char>>) -> Seq<char> {
    "Power Profile: "@ + match profile {
        Some(p) => p,
        None => "?"@,
    }
}

pub fn print_profile_line(profile: Option<&str>) -> (s: String)
    ensures
        s@ == profile_line(
            match profile {
                Some(p) => Some(p@),
                None => None,
            },
        ),
{
    let mut t = chars_of("Power Profile: ");
    match profile {
        Some(p) => push_str(&mut t, p),
        None => push_str(&mut t, "?"),
    }
    string_of(&t)
}

/// The line of the Intel P-state range and turbo.
pub open spec fn cpu_line(min_perf_pct: u8, max_perf_pct: u8, no_turbo: bool) -> Seq<char> {
    "CPU: "@ + decimal(min_perf_pct as nat) + "% - "@ + decimal(max_perf_pct as nat) + "%, "@ + if no_turbo {
        "No Turbo"@
    } else {
        "Turbo"@
    }
}

pub fn print_cpu_line(min_perf_pct: u8, max_perf_pct: u8, no_turbo: bool) -> (s: String)
    ensures
        s@ == cpu_line(min_perf_pct, max_perf_pct, no_turbo),
{
    let mut t = chars_of("CPU: ");
    push_decimal(&mut t, min_perf_pct as u64);
    push_str(&mut t, "% - ");
    push_decimal(&mut t, max_perf_pct as u64);
    push_str(&mut t, "%, ");
    if no_turbo {
        push_str(&mut t, "No Turbo");
    } else {
        push_str(&mut t, "Turbo");
    }
    assert(t@ =~= cpu_line(min_perf_pct, max_perf_pct, no_turbo));
    string_of(&t)
}

} // verus!
