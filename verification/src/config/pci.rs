//! Runtime power management of PCI devices, per profile.
use vstd::prelude::*;

verus! {

/// Whether PCI devices are put under runtime power management.
#[derive(Clone, Copy, Debug, PartialEq, Eq, Structural)]
pub struct ConfigPci {
    pub runtime_pm: bool,
}

impl ConfigPci {
    /// The battery profile: runtime power management on.
    pub fn battery() -> (c: Self)
        ensures
            c.runtime_pm,
    {
        Self { runtime_pm: true }
    }

    /// The balanced profile: runtime power management on.
    pub fn balanced() -> (c: Self)
        ensures
            c.runtime_pm,
    {
        Self { runtime_pm: true }
    }

    /// The performance profile: runtime power management off.
    pub fn performance() -> (c: Self)
        ensures
            !c.runtime_pm,
    {
        Self { runtime_pm: false }
    }
}

} // verus!
