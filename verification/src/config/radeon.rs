//! AMD graphics settings per profile.
use vstd::prelude::*;

verus! {

/// The values written to an AMD card's power profile, DPM state and forced DPM
/// performance level.
#[derive(Clone, Copy, Debug, PartialEq, Eq)]
pub struct AmdSettings {
    pub profile: &'static str,
    pub dpm_state: &'static str,
    pub dpm_perf: &'static str,
}

impl AmdSettings {
    /// The battery profile: `low`, `battery`, `low`.
    pub fn battery() -> (s: Self)
        ensures
            s.profile@ == "low"@,
            s.dpm_state@ == "battery"@,
            s.dpm_perf@ == "low"@,
    {
        Self { profile: "low", dpm_state: "battery", dpm_perf: "low" }
    }

    /// The balanced profile: `auto`, `performance`, `auto`.
    pub fn balanced() -> (s: Self)
        ensures
            s.profile@ == "auto"@,
            s.dpm_state@ == "performance"@,
            s.dpm_perf@ == "auto"@,
    {
        Self { profile: "auto", dpm_state: "performance", dpm_perf: "auto" }
    }

    /// The performance profile: `high`, `performance`, `auto`.
    pub fn performance() -> (s: Self)
        ensures
            s.profile@ == "high"@,
            s.dpm_state@ == "performance"@,
            s.dpm_perf@ == "auto"@,
    {
        Self { profile: "high", dpm_state: "performance", dpm_perf: "auto" }
    }
}

} // verus!
