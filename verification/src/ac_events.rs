//! Switching the power profile when AC is plugged in or pulled, and when the battery
//! runs low: the decision taken on each poll of the power supply.
use crate::Profile;
use vstd::prelude::*;

verus! {

/// What the watcher remembers between polls: whether it last saw AC, and whether it
/// switched to the battery profile because the charge was critical.
#[derive(Clone, Copy, Debug, PartialEq, Eq, Structural)]
pub struct AcEvents {
    pub on_ac: bool,
    pub critical: bool,
}

/// One poll: the state after it and the profile to request, if any. `below_critical`
/// is whether the charge is under 25%, `above_normal` whether it is over 50%.
pub open spec fn ac_step(s: AcEvents, on_battery: bool, below_critical: bool, above_normal: bool) -> (AcEvents, Option<Profile>) {
    if s.on_ac {
        if on_battery {
            (AcEvents { on_ac: false, critical: s.critical }, Some(Profile::Balanced))
        } else {
            (s, None)
        }
    } else if !on_battery {
        (AcEvents { on_ac: true, critical: s.critical }, Some(Profile::Performance))
    } else if !s.critical && below_critical {
        (AcEvents { on_ac: false, critical: true }, Some(Profile::Battery))
    } else if s.critical && above_normal {
        (AcEvents { on_ac: false, critical: false }, Some(Profile::Balanced))
    } else {
        (s, None)
    }
}

impl AcEvents {
    /// The state before the first poll: not on AC, not critical.
    pub fn new() -> (s: Self)
        ensures
            !s.on_ac && !s.critical,
    {
        AcEvents { on_ac: false, critical: false }
    }

    /// Takes one poll into account and gives the profile to request.
    pub fn step(&mut self, on_battery: bool, below_critical: bool, above_normal: bool) -> (r: Option<Profile>)
        ensures
            (*final(self), r) == ac_step(*old(self), on_battery, below_critical, above_normal),
    {
        if self.on_ac {
            if on_battery {
                self.on_ac = false;
                return Some(Profile::Balanced);
            }
            None
        } else if !on_battery {
            self.on_ac = true;
            Some(Profile::Performance)
        } else if !self.critical && below_critical {
            self.critical = true;
            Some(Profile::Battery)
        } else if self.critical && above_normal {
            self.critical = false;
            Some(Profile::Balanced)
        } else {
            None
        }
    }
}

/// After any poll the watcher knows where the power comes from; a profile is requested
/// exactly when its state changes; plugging in always asks for performance and pulling
/// the plug for balanced; the battery profile is asked for only on battery under the
/// critical charge, and only once until the charge is back over normal or AC returns.
pub proof fn lemma_ac_step(s: AcEvents, on_battery: bool, below_critical: bool, above_normal: bool)
    ensures
        ({
            let (t, r) = ac_step(s, on_battery, below_critical, above_normal);
            &&& t.on_ac == !on_battery
            &&& r is Some <==> t != s
            &&& (!s.on_ac && !on_battery) ==> r == Some(Profile::Performance)
            &&& (s.on_ac && on_battery) ==> r == Some(Profile::Balanced)
            &&& r == Some(Profile::Battery) ==> on_battery && below_critical && !s.critical && t.critical
            &&& s.critical && t.critical ==> r != Some(Profile::Battery)
        }),
{
}

} // verus!
