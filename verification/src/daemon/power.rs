//! The daemon's power profile state: which profile is set, the profiles applications
//! hold, auto-switching on power source changes, and hot-plug edges.
use crate::display::{mode_view, DisplayModeConfig, ModeSpec, ModeSpecView, RefreshRateConfig};
use crate::text::{chars_of, eq_lit, string_of};
use vstd::prelude::*;

verus! {

/// Maps a System76 profile name to the name the UPower power-profiles interface uses.
pub open spec fn upp_name(system76_profile: Seq<char>) -> Seq<char> {
    if system76_profile == "Battery"@ {
        "power-saver"@
    } else if system76_profile == "Balanced"@ {
        "balanced"@
    } else if system76_profile == "Performance"@ {
        "performance"@
    } else {
        "unknown"@
    }
}

pub fn system76_profile_to_upp_str(system76_profile: &str) -> (r: &'static str)
    ensures
        r@ == upp_name(system76_profile@),
{
    let p = chars_of(system76_profile);
    if eq_lit(&p, "Battery") {
        "power-saver"
    } else if eq_lit(&p, "Balanced") {
        "balanced"
    } else if eq_lit(&p, "Performance") {
        "performance"
    } else {
        "unknown"
    }
}

/// Maps a UPower power-profiles name to the System76 profile it sets.
pub open spec fn system76_name(upp: Seq<char>) -> Option<Seq<char>> {
    if upp == "power-saver"@ {
        Some("Battery"@)
    } else if upp == "balanced"@ {
        Some("Balanced"@)
    } else if upp == "performance"@ {
        Some("Performance"@)
    } else {
        None
    }
}

pub fn upp_to_system76_profile(upp: &str) -> (r: Option<&'static str>)
    ensures
        match r {
            Some(s) => system76_name(upp@) == Some(s@),
            None => system76_name(upp@) is None,
        },
{
    let p = chars_of(upp);
    if eq_lit(&p, "power-saver") {
        Some("Battery")
    } else if eq_lit(&p, "balanced") {
        Some("Balanced")
    } else if eq_lit(&p, "performance") {
        Some("Performance")
    } else {
        None
    }
}

/// Each of the three profiles maps to its UPower name and back.
pub proof fn lemma_upp_names_round_trip()
    ensures
        system76_name(upp_name("Battery"@)) == Some("Battery"@),
        system76_name(upp_name("Balanced"@)) == Some("Balanced"@),
        system76_name(upp_name("Performance"@)) == Some("Performance"@),
{
    reveal_strlit("Battery");
    reveal_strlit("Balanced");
    reveal_strlit("Performance");
    reveal_strlit("power-saver");
    reveal_strlit("balanced");
    reveal_strlit("performance");
    assert("Balanced"@.len() != "Battery"@.len());
    assert("Performance"@.len() != "Battery"@.len());
    assert("Performance"@.len() != "Balanced"@.len());
    assert("balanced"@.len() != "power-saver"@.len());
    assert("performance"@[1] != "power-saver"@[1]);
    assert("performance"@.len() != "balanced"@.len());
}

/// The refresh rate a profile asks for, 0 for a name that is no profile.
pub open spec fn refresh_rate_for(c: RefreshRateConfig, name: Seq<char>) -> u32 {
    if name == "Battery"@ {
        c.battery
    } else if name == "Balanced"@ {
        c.balanced
    } else if name == "Performance"@ {
        c.performance
    } else {
        0
    }
}

pub fn profile_refresh_rate(c: &RefreshRateConfig, name: &str) -> (hz: u32)
    ensures
        hz == refresh_rate_for(*c, name@),
        name@ == "Battery"@ ==> hz == c.battery,
        name@ == "Balanced"@ ==> hz == c.balanced,
        name@ == "Performance"@ ==> hz == c.performance,
{
    proof {
        lemma_refresh_rate_of_profile(*c, name@);
    }
    let p = chars_of(name);
    if eq_lit(&p, "Battery") {
        c.battery
    } else if eq_lit(&p, "Balanced") {
        c.balanced
    } else if eq_lit(&p, "Performance") {
        c.performance
    } else {
        0
    }
}

/// The refresh rate asked for a profile is the one configured for that same profile,
/// and none (0) for a name that is no profile.
pub proof fn lemma_refresh_rate_of_profile(c: RefreshRateConfig, name: Seq<char>)
    ensures
        refresh_rate_for(c, "Battery"@) == c.battery,
        refresh_rate_for(c, "Balanced"@) == c.balanced,
        refresh_rate_for(c, "Performance"@) == c.performance,
        name != "Battery"@ && name != "Balanced"@ && name != "Performance"@ ==> refresh_rate_for(c, name)
            == 0,
{
    reveal_strlit("Battery");
    reveal_strlit("Balanced");
    reveal_strlit("Performance");
    assert("Battery"@[2] != "Balanced"@[2]);
    assert("Battery"@[0] != "Performance"@[0]);
    assert("Balanced"@[0] != "Performance"@[0]);
}

/// A profile held through the UPower interface.
#[derive(Debug, Clone, Copy, PartialEq, Eq)]
pub enum HeldKind {
    PowerSaver,
    Balanced,
    Performance,
}

pub open spec fn held_kind_name(k: HeldKind) -> Seq<char> {
    match k {
        HeldKind::PowerSaver => "power-saver"@,
        HeldKind::Balanced => "balanced"@,
        HeldKind::Performance => "performance"@,
    }
}

impl HeldKind {
    pub fn from_name(profile: &str) -> (r: Option<HeldKind>)
        ensures
            match r {
                Some(k) => held_kind_name(k) == profile@,
                None => profile@ != "power-saver"@ && profile@ != "balanced"@ && profile@
                    != "performance"@,
            },
    {
        let p = chars_of(profile);
        if eq_lit(&p, "power-saver") {
            Some(HeldKind::PowerSaver)
        } else if eq_lit(&p, "balanced") {
            Some(HeldKind::Balanced)
        } else if eq_lit(&p, "performance") {
            Some(HeldKind::Performance)
        } else {
            None
        }
    }

    pub fn name(self) -> (s: &'static str)
        ensures
            s@ == held_kind_name(self),
    {
        match self {
            HeldKind::PowerSaver => "power-saver",
            HeldKind::Balanced => "balanced",
            HeldKind::Performance => "performance",
        }
    }
}

/// A held profile: its cookie, the profile, the reason and the application.
#[derive(Debug, Clone)]
pub struct HeldProfile {
    pub id: u32,
    pub profile: HeldKind,
    pub reason: String,
    pub application_id: String,
}

/// The profile the holds ask for: power-saver when any hold asks for it, else
/// performance when any asks for that, else balanced.
pub open spec fn held_target(h: Seq<HeldProfile>) -> HeldKind {
    if exists|i: int| 0 <= i < h.len() && h[i].profile == HeldKind::PowerSaver {
        HeldKind::PowerSaver
    } else if exists|i: int| 0 <= i < h.len() && h[i].profile == HeldKind::Performance {
        HeldKind::Performance
    } else {
        HeldKind::Balanced
    }
}

/// Holds combine with power saving first: with no hold the target is balanced; a new
/// power-saver hold makes the target power-saver, a new performance hold makes it
/// performance unless a power-saver hold is already there, and a new balanced hold
/// changes nothing.
pub proof fn lemma_held_target_push(h: Seq<HeldProfile>, hold: HeldProfile)
    ensures
        held_target(Seq::<HeldProfile>::empty()) == HeldKind::Balanced,
        held_target(h.push(hold)) == (if hold.profile == HeldKind::PowerSaver || held_target(h)
            == HeldKind::PowerSaver {
            HeldKind::PowerSaver
        } else if hold.profile == HeldKind::Performance {
            HeldKind::Performance
        } else {
            held_target(h)
        }),
{
    let h2 = h.push(hold);
    let n = h.len() as int;
    assert(h2[n] == hold);
    assert forall|i: int| 0 <= i < h.len() implies h2[i] == h[i] by {}
    if exists|i: int| 0 <= i < h.len() && h[i].profile == HeldKind::PowerSaver {
        let i = choose|i: int| 0 <= i < h.len() && h[i].profile == HeldKind::PowerSaver;
        assert(h2[i].profile == HeldKind::PowerSaver);
    }
    if exists|i: int| 0 <= i < h.len() && h[i].profile == HeldKind::Performance {
        let i = choose|i: int| 0 <= i < h.len() && h[i].profile == HeldKind::Performance;
        assert(h2[i].profile == HeldKind::Performance);
    }
    if exists|i: int| 0 <= i < h2.len() && h2[i].profile == HeldKind::PowerSaver {
        let i = choose|i: int| 0 <= i < h2.len() && h2[i].profile == HeldKind::PowerSaver;
        if i < n {
            assert(h[i].profile == HeldKind::PowerSaver);
        }
    }
    if exists|i: int| 0 <= i < h2.len() && h2[i].profile == HeldKind::Performance {
        let i = choose|i: int| 0 <= i < h2.len() && h2[i].profile == HeldKind::Performance;
        if i < n {
            assert(h[i].profile == HeldKind::Performance);
        }
    }
}

/// The UPower names of the three profiles are `power-saver`, `balanced` and
/// `performance`, each mapping back to its profile; any other name is `unknown` and
/// maps to no profile.
pub proof fn lemma_upp_names(name: Seq<char>)
    ensures
        upp_name("Battery"@) == "power-saver"@,
        upp_name("Balanced"@) == "balanced"@,
        upp_name("Performance"@) == "performance"@,
        name != "Battery"@ && name != "Balanced"@ && name != "Performance"@ ==> upp_name(name)
            == "unknown"@,
        system76_name(name) matches Some(p) ==> upp_name(p) == name,
        system76_name("unknown"@) is None,
{
    reveal_strlit("Battery");
    reveal_strlit("Balanced");
    reveal_strlit("Performance");
    reveal_strlit("power-saver");
    reveal_strlit("balanced");
    reveal_strlit("performance");
    reveal_strlit("unknown");
    assert("Battery"@[2] != "Balanced"@[2]);
    assert("Battery"@[0] != "Performance"@[0]);
    assert("Balanced"@[0] != "Performance"@[0]);
    assert("power-saver"@[0] != "balanced"@[0]);
    assert("power-saver"@[1] != "performance"@[1]);
    assert("balanced"@[0] != "performance"@[0]);
    assert("unknown"@[0] != "power-saver"@[0]);
    assert("unknown"@[0] != "balanced"@[0]);
    assert("unknown"@[0] != "performance"@[0]);
}

/// The ids of the holds.
pub open spec fn held_ids(h: Seq<HeldProfile>) -> Set<u32> {
    Set::new(|id: u32| exists|i: int| 0 <= i < h.len() && h[i].id == id)
}

/// The source of power.
#[derive(Debug, Clone, Copy, PartialEq, Eq)]
pub enum PowerSource {
    AC,
    Battery,
}

/// What a change of power source leads to.
#[derive(Debug, Clone)]
pub enum PowerSourceAction {
    /// Auto-switching is off.
    Ignore,
    /// Set the display mode configured for the source, when there is one; the profile
    /// stays.
    SetDisplayMode(Option<ModeSpec>),
    /// Apply a profile.
    ApplyProfile(&'static str),
}

/// The daemon's profile state.
#[derive(Debug)]
pub struct PowerState {
    pub initial_set: bool,
    pub power_profile: String,
    pub held_profiles: Vec<HeldProfile>,
    pub profile_ids: u32,
    pub auto_switch_enabled: bool,
    pub auto_switch_manual_override: bool,
    pub refresh_rate_config: RefreshRateConfig,
    pub display_mode_config: DisplayModeConfig,
}

/// The state's invariant: every hold has an id below the next one, and no id twice.
pub open spec fn holds_wf(h: Seq<HeldProfile>, next_id: u32) -> bool {
    &&& forall|i: int| 0 <= i < h.len() ==> (#[trigger] h[i]).id < next_id
    &&& forall|i: int, j: int| 0 <= i < j < h.len() ==> h[i].id != h[j].id
}

/// What setting a profile asks of the daemon.
#[derive(Debug, Clone, Copy, PartialEq, Eq)]
pub struct ProfileChange {
    /// The profile differs from the one set, and has to be applied.
    pub apply: bool,
    /// The refresh rate to set with it, if any.
    pub refresh_rate: Option<u32>,
}

impl PowerState {
    pub fn new(
        auto_switch_enabled: bool,
        refresh_rate_config: RefreshRateConfig,
        display_mode_config: DisplayModeConfig,
    ) -> (s: Self)
        ensures
            !s.initial_set,
            s.power_profile@ == Seq::<char>::empty(),
            s.held_profiles@.len() == 0,
            s.profile_ids == 0,
            s.auto_switch_enabled == auto_switch_enabled,
            !s.auto_switch_manual_override,
            s.refresh_rate_config == refresh_rate_config,
            s.display_mode_config == display_mode_config,
            holds_wf(s.held_profiles@, s.profile_ids),
    {
        PowerState {
            initial_set: false,
            power_profile: String::new(),
            held_profiles: Vec::new(),
            profile_ids: 0,
            auto_switch_enabled,
            auto_switch_manual_override: false,
            refresh_rate_config,
            display_mode_config,
        }
    }

    /// A user asks for profile `name`: with auto-switching on and the first profile set,
    /// asking for another profile than the current one overrides auto-switching.
    pub fn note_manual_request(&mut self, name: &str)
        ensures
            final(self).auto_switch_manual_override == (old(self).auto_switch_manual_override || (
            old(self).auto_switch_enabled && old(self).initial_set && old(self).power_profile@
                != name@)),
            final(self).power_profile == old(self).power_profile,
            final(self).held_profiles == old(self).held_profiles,
            final(self).profile_ids == old(self).profile_ids,
            final(self).initial_set == old(self).initial_set,
            final(self).auto_switch_enabled == old(self).auto_switch_enabled,
    {
        let current = chars_of(self.power_profile.as_str());
        let wanted = chars_of(name);
        if self.auto_switch_enabled && self.initial_set && !crate::text::chars_eq(&current, &wanted) {
            self.auto_switch_manual_override = true;
        }
    }

    /// Sets profile `name`: it has to be applied unless it is already the current one,
    /// and then it becomes the current one, with the refresh rate it asks for when
    /// refresh rate switching is on and the rate is not 0.
    pub fn set_profile(&mut self, name: &str) -> (c: ProfileChange)
        ensures
            c.apply == set_profile_applies(old(self).power_profile@, name@),
            final(self).power_profile@ == name@,
            c.refresh_rate == (if c.apply && old(self).refresh_rate_config.enabled
                && refresh_rate_for(old(self).refresh_rate_config, name@) > 0 {
                Some(refresh_rate_for(old(self).refresh_rate_config, name@))
            } else {
                None
            }),
            final(self).held_profiles == old(self).held_profiles,
            final(self).profile_ids == old(self).profile_ids,
            final(self).initial_set == old(self).initial_set,
            final(self).auto_switch_enabled == old(self).auto_switch_enabled,
            final(self).auto_switch_manual_override == old(self).auto_switch_manual_override,
            final(self).refresh_rate_config == old(self).refresh_rate_config,
    {
        let current = chars_of(self.power_profile.as_str());
        let wanted = chars_of(name);
        if crate::text::chars_eq(&current, &wanted) {
            return ProfileChange { apply: false, refresh_rate: None };
        }
        self.power_profile = string_of(&wanted);
        let refresh_rate = if self.refresh_rate_config.enabled {
            let hz = profile_refresh_rate(&self.refresh_rate_config, name);
            if hz > 0 {
                Some(hz)
            } else {
                None
            }
        } else {
            None
        };
        ProfileChange { apply: true, refresh_rate }
    }

    /// The profile the current holds ask for.
    pub fn held_profile_target(&self) -> (k: HeldKind)
        ensures
            k == held_target(self.held_profiles@),
    {
        let mut target = HeldKind::Balanced;
        let mut i: usize = 0;
        while i < self.held_profiles.len()
            invariant
                i <= self.held_profiles@.len(),
                forall|j: int| 0 <= j < i ==> self.held_profiles@[j].profile != HeldKind::PowerSaver,
                target == (if exists|j: int|
                    0 <= j < i && self.held_profiles@[j].profile == HeldKind::Performance {
                    HeldKind::Performance
                } else {
                    HeldKind::Balanced
                }),
            decreases self.held_profiles@.len() - i,
        {
            match self.held_profiles[i].profile {
                HeldKind::PowerSaver => {
                    return HeldKind::PowerSaver;
                },
                HeldKind::Performance => {
                    target = HeldKind::Performance;
                },
                HeldKind::Balanced => {},
            }
            i = i + 1;
        }
        target
    }

    /// Holds `profile` for an application, and gives the cookie that releases it; a name
    /// that is no profile is refused.
    pub fn hold_profile(&mut self, profile: &str, reason: &str, application_id: &str) -> (r: Result<
        u32,
        String,
    >)
        requires
            holds_wf(old(self).held_profiles@, old(self).profile_ids),
            old(self).profile_ids < u32::MAX,
        ensures
            holds_wf(final(self).held_profiles@, final(self).profile_ids),
            match r {
                Ok(id) => {
                    &&& id == old(self).profile_ids
                    &&& final(self).profile_ids == old(self).profile_ids + 1
                    &&& final(self).held_profiles@.len() == old(self).held_profiles@.len() + 1
                    &&& final(self).held_profiles@.drop_last() == old(self).held_profiles@
                    &&& final(self).held_profiles@.last().id == id
                    &&& held_kind_name(final(self).held_profiles@.last().profile) == profile@
                    &&& final(self).held_profiles@.last().reason@ == reason@
                    &&& final(self).held_profiles@.last().application_id@ == application_id@
                },
                Err(e) => {
                    &&& e@ == "unknown power profile"@
                    &&& profile@ != "power-saver"@ && profile@ != "balanced"@ && profile@
                        != "performance"@
                    &&& final(self).held_profiles == old(self).held_profiles
                    &&& final(self).profile_ids == old(self).profile_ids
                },
            },
            final(self).power_profile == old(self).power_profile,
    {
        let kind = match HeldKind::from_name(profile) {
            Some(k) => k,
            None => return Err(string_of(&chars_of("unknown power profile"))),
        };
        let id = self.profile_ids;
        self.profile_ids = self.profile_ids + 1;
        let hold = HeldProfile {
            id,
            profile: kind,
            reason: string_of(&chars_of(reason)),
            application_id: string_of(&chars_of(application_id)),
        };
        self.held_profiles.push(hold);
        Ok(id)
    }

    /// Releases the hold with `cookie`, if there is one; the last hold takes its place.
    pub fn release_profile(&mut self, cookie: u32) -> (released: bool)
        requires
            holds_wf(old(self).held_profiles@, old(self).profile_ids),
        ensures
            holds_wf(final(self).held_profiles@, final(self).profile_ids),
            final(self).profile_ids == old(self).profile_ids,
            released == held_ids(old(self).held_profiles@).contains(cookie),
            held_ids(final(self).held_profiles@) == held_ids(old(self).held_profiles@).remove(
                cookie,
            ),
            released ==> final(self).held_profiles@.len() + 1 == old(self).held_profiles@.len(),
            !released ==> final(self).held_profiles@ == old(self).held_profiles@,
            final(self).power_profile == old(self).power_profile,
    {
        let ghost h = self.held_profiles@;
        let mut i: usize = 0;
        while i < self.held_profiles.len()
            invariant
                h == self.held_profiles@,
                h == old(self).held_profiles@,
                self.profile_ids == old(self).profile_ids,
                self.power_profile == old(self).power_profile,
                holds_wf(h, self.profile_ids),
                i <= h.len(),
                forall|j: int| 0 <= j < i ==> h[j].id != cookie,
            decreases h.len() - i,
        {
            if self.held_profiles[i].id == cookie {
                let _removed = self.held_profiles.swap_remove(i);
                proof {
                    let h2 = self.held_profiles@;
                    assert(held_ids(h).contains(cookie));
                    assert forall|id: u32| held_ids(h2).contains(id) == held_ids(h).remove(
                        cookie,
                    ).contains(id) by {
                        if held_ids(h2).contains(id) {
                            let k = choose|k: int| 0 <= k < h2.len() && h2[k].id == id;
                            if k == i {
                                assert(h2[k] == h.last());
                                assert(i < h.len() - 1);
                                assert(h[i as int].id != h[h.len() - 1].id);
                                assert(h.last().id != cookie);
                            } else {
                                assert(h2[k] == h[k]);
                                assert(h[k].id != h[i as int].id);
                            }
                        }
                        if held_ids(h).remove(cookie).contains(id) {
                            let k = choose|k: int| 0 <= k < h.len() && h[k].id == id;
                            assert(k != i);
                            if k == h.len() - 1 {
                                assert(h2[i as int] == h[k]);
                            } else {
                                assert(h2[k] == h[k]);
                            }
                        }
                    }
                    assert(held_ids(h2) =~= held_ids(h).remove(cookie));
                }
                return true;
            }
            i = i + 1;
        }
        assert(!held_ids(h).contains(cookie));
        assert(held_ids(h).remove(cookie) =~= held_ids(h));
        false
    }

    /// The power source changed to `source`. With auto-switching off nothing happens;
    /// otherwise any manual override ends, and either the display mode configured for
    /// the source is set, when display mode switching is on, or the profile for the
    /// source is applied: balanced on AC, battery on battery.
    pub fn on_power_source(&mut self, source: PowerSource) -> (a: PowerSourceAction)
        ensures
            !old(self).auto_switch_enabled ==> a is Ignore && *final(self) == *old(self),
            old(self).auto_switch_enabled ==> {
                &&& !final(self).auto_switch_manual_override
                &&& final(self).power_profile == old(self).power_profile
                &&& final(self).held_profiles == old(self).held_profiles
                &&& final(self).profile_ids == old(self).profile_ids
                &&& final(self).auto_switch_enabled
                &&& final(self).display_mode_config == old(self).display_mode_config
                &&& final(self).refresh_rate_config == old(self).refresh_rate_config
                &&& final(self).initial_set == old(self).initial_set
                &&& if old(self).display_mode_config.enabled {
                    a matches PowerSourceAction::SetDisplayMode(m) && mode_view(m) == mode_view(
                        match source {
                            PowerSource::AC => old(self).display_mode_config.ac_mode,
                            PowerSource::Battery => old(self).display_mode_config.battery_mode,
                        },
                    )
                } else {
                    a matches PowerSourceAction::ApplyProfile(p) && p@ == match source {
                        PowerSource::AC => "Balanced"@,
                        PowerSource::Battery => "Battery"@,
                    }
                }
            },
    {
        if !self.auto_switch_enabled {
            return PowerSourceAction::Ignore;
        }
        self.auto_switch_manual_override = false;
        if self.display_mode_config.enabled {
            let mode = match source {
                PowerSource::AC => &self.display_mode_config.ac_mode,
                PowerSource::Battery => &self.display_mode_config.battery_mode,
            };
            let copy = match mode {
                Some(m) => Some(m.duplicate()),
                None => None,
            };
            PowerSourceAction::SetDisplayMode(copy)
        } else {
            match source {
                PowerSource::AC => PowerSourceAction::ApplyProfile("Balanced"),
                PowerSource::Battery => PowerSourceAction::ApplyProfile("Battery"),
            }
        }
    }
}

/// Setting profile `name` when `current` is set has it applied.
pub open spec fn set_profile_applies(current: Seq<char>, name: Seq<char>) -> bool {
    current != name
}

/// Setting a profile twice in a row applies it at most once: the second time finds it
/// set already.
pub proof fn lemma_set_profile_idempotent(current: Seq<char>, name: Seq<char>)
    ensures
        !set_profile_applies(name, name),
{
}

/// Holding a profile and then releasing the cookie it gave leaves the same holds.
pub proof fn lemma_hold_release(h: Seq<HeldProfile>, next_id: u32, hold: HeldProfile)
    requires
        holds_wf(h, next_id),
        hold.id == next_id,
    ensures
        held_ids(h.push(hold)).remove(next_id) == held_ids(h),
        held_ids(h.push(hold)).contains(next_id),
{
    let h2 = h.push(hold);
    assert(h2[h.len() as int] == hold);
    assert forall|id: u32| held_ids(h2).remove(next_id).contains(id) == held_ids(h).contains(id) by {
        if held_ids(h).contains(id) {
            let k = choose|k: int| 0 <= k < h.len() && h[k].id == id;
            assert(h2[k] == h[k]);
            assert(h[k].id < next_id);
        }
        if held_ids(h2).remove(next_id).contains(id) {
            let k = choose|k: int| 0 <= k < h2.len() && h2[k].id == id;
            if k < h.len() {
                assert(h2[k] == h[k]);
            }
        }
    }
    assert(held_ids(h2).remove(next_id) =~= held_ids(h));
}

/// The errors met while setting a profile, as one message; `Ok` when there were none.
pub fn profile_errors_message(errors: &Vec<String>) -> (r: Result<(), String>)
    ensures
        errors@.len() == 0 <==> r is Ok,
        r matches Err(m) ==> m@ == errors_message(errors@, errors@.len() as int),
{
    if errors.len() == 0 {
        return Ok(());
    }
    let mut message = chars_of("Errors found when setting profile:");
    let mut i: usize = 0;
    while i < errors.len()
        invariant
            i <= errors@.len(),
            message@ == errors_message(errors@, i as int),
        decreases errors@.len() - i,
    {
        crate::text::push_str(&mut message, "\n    - ");
        crate::text::push_str(&mut message, errors[i].as_str());
        i = i + 1;
    }
    Err(string_of(&message))
}

/// The message for the first `k` errors.
pub open spec fn errors_message(errors: Seq<String>, k: int) -> Seq<char>
    decreases k,
{
    if k <= 0 {
        "Errors found when setting profile:"@
    } else {
        errors_message(errors, k - 1) + "\n    - "@ + errors[k - 1]@
    }
}

/// The ports whose hot-plug detection turned on since the last reading.
pub open spec fn rising(last: [bool; 4], now: [bool; 4], i: int) -> bool {
    now@[i] != last@[i] && now@[i]
}

pub fn rising_edges(last: [bool; 4], now: [bool; 4]) -> (r: Vec<usize>)
    ensures
        forall|k: int| 0 <= k < r@.len() ==> r@[k] < 4 && rising(last, now, r@[k] as int),
        forall|i: int| 0 <= i < 4 && rising(last, now, i) ==> r@.contains(i as usize),
        forall|a: int, b: int| 0 <= a < b < r@.len() ==> r@[a] < r@[b],
{
    let mut r: Vec<usize> = Vec::new();
    let mut i: usize = 0;
    while i < 4
        invariant
            i <= 4,
            forall|k: int| 0 <= k < r@.len() ==> r@[k] < i && rising(last, now, r@[k] as int),
            forall|j: int| 0 <= j < i && rising(last, now, j) ==> r@.contains(j as usize),
            forall|a: int, b: int| 0 <= a < b < r@.len() ==> r@[a] < r@[b],
        decreases 4 - i,
    {
        let ghost old_r = r@;
        if now[i] != last[i] && now[i] {
            r.push(i);
            assert(r@[r@.len() - 1] == i);
        }
        assert forall|j: int| 0 <= j <= i && rising(last, now, j) implies r@.contains(j as usize) by {
            if j < i {
                let k = choose|k: int| 0 <= k < old_r.len() && old_r[k] == j as usize;
                assert(r@[k] == old_r[k]);
            } else {
                assert(r@[r@.len() - 1] == i);
            }
        }
        i = i + 1;
    }
    r
}

} // verus!
