//! The power parameters of an AMD graphics card.
use super::KernelParameter;
use crate::text::{decimal, push_decimal, push_str, string_of};
use vstd::prelude::*;

verus! {

/// An AMD card under `/sys/class/drm`, with its power parameters.
#[derive(Clone, Debug)]
pub struct RadeonDevice {
    pub path: String,
    pub dpm_state: KernelParameter,
    pub dpm_force_performance: KernelParameter,
    pub power_method: KernelParameter,
    pub power_profile: KernelParameter,
}

impl RadeonDevice {
    /// The card numbered `card`.
    pub fn new(card: u32) -> (d: RadeonDevice)
        ensures
            d.path@ == "/sys/class/drm/card"@ + decimal(card as nat),
            d.dpm_state.path@ == d.path@ + "/power_dpm_state"@,
            d.dpm_force_performance.path@ == d.path@ + "/power_dpm_force_performance_level"@,
            d.power_method.path@ == d.path@ + "/power_method"@,
            d.power_profile.path@ == d.path@ + "/power_profile"@,
    {
        let mut p: Vec<char> = Vec::new();
        push_str(&mut p, "/sys/class/drm/card");
        push_decimal(&mut p, card as u64);
        assert(p@ =~= "/sys/class/drm/card"@ + decimal(card as nat));
        let path = string_of(&p);
        let s = path.as_str();
        proof {
            reveal_strlit("");
            assert(""@ =~= Seq::<char>::empty());
            assert(""@ + s@ =~= s@);
        }
        RadeonDevice {
            dpm_state: KernelParameter::dynamic("", s, "/power_dpm_state"),
            dpm_force_performance: KernelParameter::dynamic("", s, "/power_dpm_force_performance_level"),
            power_method: KernelParameter::dynamic("", s, "/power_method"),
            power_profile: KernelParameter::dynamic("", s, "/power_profile"),
            path,
        }
    }
}

} // verus!
