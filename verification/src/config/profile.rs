//! Power profiles: the three built-in ones and those the configuration adds.
use super::backlight::ConfigBacklight;
use super::pci::ConfigPci;
use super::pstate::ConfigPState;
use crate::entries::{find_key, insert_entry, keys_unique, lookup, names};
use crate::text::{
    bool_text, chars_of, decimal, decimal_chars, eq_lit, lemma_string_views_push, push_all, push_bool, push_decimal, push_str, push_text,
    string_of, string_views,
};
use vstd::prelude::*;
use vstd::utf8::encode_utf8;

verus! {

/// The settings of one power profile; a missing setting is not applied.
#[derive(Clone, Debug)]
pub struct Profile {
    pub backlight: Option<ConfigBacklight>,
    pub laptop_mode: u8,
    pub max_lost_work: u32,
    pub pci: Option<ConfigPci>,
    pub pstate: Option<ConfigPState>,
    pub graphics: Option<String>,
}

/// What a `Profile` holds, with the graphics profile as its characters.
pub struct ProfileView {
    pub backlight: Option<ConfigBacklight>,
    pub laptop_mode: u8,
    pub max_lost_work: u32,
    pub pci: Option<ConfigPci>,
    pub pstate: Option<ConfigPState>,
    pub graphics: Option<Seq<char>>,
}

pub open spec fn opt_string_view(s: Option<String>) -> Option<Seq<char>> {
    match s {
        Some(x) => Some(x@),
        None => None,
    }
}

impl View for Profile {
    type V = ProfileView;

    open spec fn view(&self) -> ProfileView {
        ProfileView {
            backlight: self.backlight,
            laptop_mode: self.laptop_mode,
            max_lost_work: self.max_lost_work,
            pci: self.pci,
            pstate: self.pstate,
            graphics: opt_string_view(self.graphics),
        }
    }
}

/// The built-in battery profile.
pub open spec fn battery_view() -> ProfileView {
    ProfileView {
        backlight: Some(ConfigBacklight { keyboard: 0, screen: 10 }),
        laptop_mode: 2,
        max_lost_work: 15,
        pci: Some(ConfigPci { runtime_pm: true }),
        pstate: Some(ConfigPState { min: 0, max: 50, turbo: false }),
        graphics: Some("low"@),
    }
}

/// The built-in balanced profile.
pub open spec fn balanced_view() -> ProfileView {
    ProfileView {
        backlight: Some(ConfigBacklight { keyboard: 50, screen: 40 }),
        laptop_mode: 0,
        max_lost_work: 15,
        pci: Some(ConfigPci { runtime_pm: true }),
        pstate: Some(ConfigPState { min: 0, max: 100, turbo: true }),
        graphics: Some("balanced"@),
    }
}

/// The built-in performance profile.
pub open spec fn performance_view() -> ProfileView {
    ProfileView {
        backlight: Some(ConfigBacklight { keyboard: 100, screen: 100 }),
        laptop_mode: 0,
        max_lost_work: 15,
        pci: Some(ConfigPci { runtime_pm: false }),
        pstate: Some(ConfigPState { min: 50, max: 100, turbo: true }),
        graphics: Some("performance"@),
    }
}

/// The built-in profiles run from saving to fast: the screen and keyboard get brighter,
/// the P-state range and turbo open up, and PCI runtime power management is left on for
/// all but the performance profile; each names the graphics profile of its own name,
/// the battery one the `low` one.
pub proof fn lemma_builtin_profiles_ordered()
    ensures
        battery_view().backlight.unwrap().screen < balanced_view().backlight.unwrap().screen
            < performance_view().backlight.unwrap().screen,
        battery_view().backlight.unwrap().keyboard < balanced_view().backlight.unwrap().keyboard
            < performance_view().backlight.unwrap().keyboard,
        battery_view().pstate.unwrap().max < balanced_view().pstate.unwrap().max,
        balanced_view().pstate.unwrap().min < performance_view().pstate.unwrap().min,
        !battery_view().pstate.unwrap().turbo && balanced_view().pstate.unwrap().turbo
            && performance_view().pstate.unwrap().turbo,
        battery_view().pci.unwrap().runtime_pm && balanced_view().pci.unwrap().runtime_pm
            && !performance_view().pci.unwrap().runtime_pm,
        battery_view().graphics == Some("low"@),
        balanced_view().graphics == Some("balanced"@),
        performance_view().graphics == Some("performance"@),
{
}

/// The TOML lines of a profile: its backlight and P-state settings, then a blank line.
pub open spec fn profile_toml(p: ProfileView) -> Seq<char> {
    (match p.backlight {
        Some(b) => b.toml(),
        None => Seq::empty(),
    }) + (match p.pstate {
        Some(s) => s.toml(),
        None => Seq::empty(),
    }) + "\n"@
}

impl Profile {
    pub fn battery() -> (p: Self)
        ensures
            p@ == battery_view(),
    {
        Self {
            backlight: Some(ConfigBacklight::battery()),
            laptop_mode: 2,
            max_lost_work: 15,
            pci: Some(ConfigPci::battery()),
            pstate: Some(ConfigPState::battery()),
            graphics: Some(string_of(&chars_of("low"))),
        }
    }

    pub fn balanced() -> (p: Self)
        ensures
            p@ == balanced_view(),
    {
        Self {
            backlight: Some(ConfigBacklight::balanced()),
            laptop_mode: 0,
            max_lost_work: 15,
            pci: Some(ConfigPci::balanced()),
            pstate: Some(ConfigPState::balanced()),
            graphics: Some(string_of(&chars_of("balanced"))),
        }
    }

    pub fn performance() -> (p: Self)
        ensures
            p@ == performance_view(),
    {
        Self {
            backlight: Some(ConfigBacklight::performance()),
            laptop_mode: 0,
            max_lost_work: 15,
            pci: Some(ConfigPci::performance()),
            pstate: Some(ConfigPState::performance()),
            graphics: Some(string_of(&chars_of("performance"))),
        }
    }

    /// A copy of the profile.
    pub fn duplicate(&self) -> (p: Self)
        ensures
            p@ == self@,
    {
        Profile {
            backlight: self.backlight,
            laptop_mode: self.laptop_mode,
            max_lost_work: self.max_lost_work,
            pci: self.pci,
            pstate: self.pstate,
            graphics: match &self.graphics {
                Some(g) => Some(g.clone()),
                None => None,
            },
        }
    }

    /// Whether two profiles hold the same settings.
    pub fn same_as(&self, other: &Profile) -> (r: bool)
        ensures
            r == (self@ == other@),
    {
        let graphics_same = match (&self.graphics, &other.graphics) {
            (Some(a), Some(b)) => *a == *b,
            (None, None) => true,
            _ => false,
        };
        let backlight_same = match (self.backlight, other.backlight) {
            (Some(a), Some(b)) => a.keyboard == b.keyboard && a.screen == b.screen,
            (None, None) => true,
            _ => false,
        };
        let pci_same = match (self.pci, other.pci) {
            (Some(a), Some(b)) => a.runtime_pm == b.runtime_pm,
            (None, None) => true,
            _ => false,
        };
        let pstate_same = match (self.pstate, other.pstate) {
            (Some(a), Some(b)) => a.min == b.min && a.max == b.max && a.turbo == b.turbo,
            (None, None) => true,
            _ => false,
        };
        graphics_same && backlight_same && pci_same && pstate_same && self.laptop_mode
            == other.laptop_mode && self.max_lost_work == other.max_lost_work
    }

    /// Appends the TOML lines of the profile.
    pub fn serialize_toml(&self, out: &mut Vec<u8>)
        ensures
            final(out)@ == old(out)@ + encode_utf8(profile_toml(self@)),
    {
        let mut t: Vec<char> = Vec::new();
        push_profile_toml(&mut t, self);
        assert(t@ =~= profile_toml(self@));
        push_text(out, &t);
    }
}

fn push_profile_toml(t: &mut Vec<char>, p: &Profile)
    ensures
        final(t)@ == old(t)@ + profile_toml(p@),
{
    let ghost start = t@;
    if let Some(b) = p.backlight {
        push_str(t, "backlight = { keyboard = ");
        push_decimal(t, b.keyboard as u64);
        push_str(t, ", screen = ");
        push_decimal(t, b.screen as u64);
        push_str(t, " }\n");
    }
    let ghost mid = t@;
    assert(mid =~= start + match p.backlight {
        Some(b) => b.toml(),
        None => Seq::<char>::empty(),
    });
    if let Some(s) = p.pstate {
        push_str(t, "pstate_min = ");
        push_decimal(t, s.min as u64);
        push_str(t, "\npstate_max = ");
        push_decimal(t, s.max as u64);
        push_str(t, "\npstate_turbo = ");
        push_bool(t, s.turbo);
        push_str(t, "\n");
    }
    let ghost mid2 = t@;
    assert(mid2 =~= mid + match p.pstate {
        Some(s) => s.toml(),
        None => Seq::<char>::empty(),
    });
    push_str(t, "\n");
}

/// `text` where the documentation is written, nothing otherwise.
pub open spec fn doc(document: bool, text: Seq<char>) -> Seq<char> {
    if document {
        text
    } else {
        Seq::empty()
    }
}

/// One commented-out setting: its explanation where `document` is set, then the line
/// that shows its default value.
pub open spec fn setting_line(document: bool, explanation: Seq<char>, key: Seq<char>, value: Seq<char>) -> Seq<char> {
    doc(document, explanation) + key + value + "\n"@
}

/// A profile that holds its default settings, written as a commented-out section that
/// shows them, with the explanation of each setting where `document` is set.
pub open spec fn commented_profile(name: Seq<char>, d: ProfileView, document: bool) -> Seq<char> {
    "# [profiles."@ + name + "]\n"@
        + setting_line(document, "# Set the backlight brightness for each keyboard.\n#\n"@,
            "# backlight_keyboard = "@, decimal(d.backlight->0.keyboard as nat))
        + setting_line(document, "\n# Set the backlight brightness for each screen.\n#\n"@,
            "# backlight_screen = "@, decimal(d.backlight->0.screen as nat))
        + setting_line(document, "\n# Enables laptop mode in the kernel if greater than 0.\n# Laptop mode schedules and batches disk I/O requests to keep\n# the system in a low power state for greater periods of time.\n#\n"@,
            "# laptop_mode = "@, decimal(d.laptop_mode as nat))
        + setting_line(document, "\n# Configures the kernel to keep up to N seconds of state stored in memory\n# before writing it to the disk. This means that sudden power loss could lose\n# up to N seconds of work, but power is saved by batching writes together.\n#\n"@,
            "# max_lost_work = "@, decimal(d.max_lost_work as nat))
        + setting_line(document, "\n# Configure runtime power management for PCI devices.\n#\n"@,
            "# pci_runtime_pm = "@, bool_text(d.pci->0.runtime_pm))
        + setting_line(document, "\n# The minimum clock speed of an Intel CPU, as a percent.\n#\n"@,
            "# pstate_min = "@, decimal(d.pstate->0.min as nat))
        + setting_line(document, "\n# The maximum clock speed of an Intel CPU, as a percent.\n#\n"@,
            "# pstate_max = "@, decimal(d.pstate->0.max as nat))
        + setting_line(document, "\n# Whether an Intel CPU should have turbo enabled or disabled.\n#\n"@,
            "# pstate_turbo = "@, bool_text(d.pstate->0.turbo))
        + setting_line(document, "\n# Set a power profile for graphics cards.\n#\n"@,
            "# graphics = '"@, d.graphics->0 + "'\n"@)
}

/// The section of a built-in profile: its settings under `[profiles.name]` when they
/// differ from the defaults, the commented-out defaults otherwise.
pub open spec fn profile_section(name: Seq<char>, current: ProfileView, default: ProfileView, document: bool) -> Seq<char> {
    if current == default {
        commented_profile(name, default, document)
    } else {
        "[profiles."@ + name + "]\n"@ + profile_toml(current)
    }
}

/// The sections of the added profiles, in order.
pub open spec fn custom_sections(c: Seq<(String, Profile)>) -> Seq<char>
    decreases c.len(),
{
    if c.len() == 0 {
        Seq::empty()
    } else {
        custom_sections(c.drop_last()) + "[profiles."@ + c.last().0@ + "]\n"@ + profile_toml(
            c.last().1@,
        )
    }
}

fn push_setting(t: &mut Vec<char>, document: bool, explanation: &str, key: &str, value: &Vec<char>)
    ensures
        final(t)@ == old(t)@ + setting_line(document, explanation@, key@, value@),
{
    let ghost start = t@;
    if document {
        push_str(t, explanation);
    }
    assert(t@ =~= start + doc(document, explanation@));
    push_str(t, key);
    push_all(t, value);
    push_str(t, "\n");
    assert(t@ =~= start + setting_line(document, explanation@, key@, value@));
}

#[verifier::spinoff_prover]
#[verifier::rlimit(40)]
fn push_commented_profile(t: &mut Vec<char>, name: &str, d: &Profile, document: bool)
    requires
        d.backlight is Some,
        d.pci is Some,
        d.pstate is Some,
        d.graphics is Some,
    ensures
        final(t)@ == old(t)@ + commented_profile(name@, d@, document),
{
    let ghost start = t@;
    let b = d.backlight.unwrap();
    let pci = d.pci.unwrap();
    let ps = d.pstate.unwrap();
    let mut g = match &d.graphics {
        Some(g) => chars_of(g.as_str()),
        None => Vec::new(),
    };
    push_str(&mut g, "'\n");
    let mut pci_text: Vec<char> = Vec::new();
    push_bool(&mut pci_text, pci.runtime_pm);
    let mut turbo_text: Vec<char> = Vec::new();
    push_bool(&mut turbo_text, ps.turbo);
    push_str(t, "# [profiles.");
    push_str(t, name);
    push_str(t, "]\n");
    let ghost s0 = t@;
    push_setting(t, document, "# Set the backlight brightness for each keyboard.\n#\n",
        "# backlight_keyboard = ", &decimal_chars(b.keyboard as u64));
    push_setting(t, document, "\n# Set the backlight brightness for each screen.\n#\n",
        "# backlight_screen = ", &decimal_chars(b.screen as u64));
    push_setting(t, document, "\n# Enables laptop mode in the kernel if greater than 0.\n# Laptop mode schedules and batches disk I/O requests to keep\n# the system in a low power state for greater periods of time.\n#\n",
        "# laptop_mode = ", &decimal_chars(d.laptop_mode as u64));
    push_setting(t, document, "\n# Configures the kernel to keep up to N seconds of state stored in memory\n# before writing it to the disk. This means that sudden power loss could lose\n# up to N seconds of work, but power is saved by batching writes together.\n#\n",
        "# max_lost_work = ", &decimal_chars(d.max_lost_work as u64));
    push_setting(t, document, "\n# Configure runtime power management for PCI devices.\n#\n",
        "# pci_runtime_pm = ", &pci_text);
    push_setting(t, document, "\n# The minimum clock speed of an Intel CPU, as a percent.\n#\n",
        "# pstate_min = ", &decimal_chars(ps.min as u64));
    push_setting(t, document, "\n# The maximum clock speed of an Intel CPU, as a percent.\n#\n",
        "# pstate_max = ", &decimal_chars(ps.max as u64));
    push_setting(t, document, "\n# Whether an Intel CPU should have turbo enabled or disabled.\n#\n",
        "# pstate_turbo = ", &turbo_text);
    push_setting(t, document, "\n# Set a power profile for graphics cards.\n#\n",
        "# graphics = '", &g);
    assert(t@ =~= start + commented_profile(name@, d@, document));
}

fn push_section(t: &mut Vec<char>, name: &str, current: &Profile, default: &Profile, document: bool)
    requires
        default.backlight is Some,
        default.pci is Some,
        default.pstate is Some,
        default.graphics is Some,
    ensures
        final(t)@ == old(t)@ + profile_section(name@, current@, default@, document),
{
    let ghost start = t@;
    if !current.same_as(default) {
        push_str(t, "[profiles.");
        push_str(t, name);
        push_str(t, "]\n");
        push_profile_toml(t, current);
        assert(t@ =~= start + profile_section(name@, current@, default@, document));
    } else {
        push_commented_profile(t, name, default, document);
    }
}

/// A profile with its missing settings taken from the default profile `d`: an absent
/// setting or a zero laptop mode or maximum lost work is replaced by the default's.
pub open spec fn repaired(p: ProfileView, d: ProfileView) -> ProfileView {
    ProfileView {
        backlight: if p.backlight is None {
            d.backlight
        } else {
            p.backlight
        },
        laptop_mode: if p.laptop_mode == 0 {
            d.laptop_mode
        } else {
            p.laptop_mode
        },
        max_lost_work: if p.max_lost_work == 0 {
            d.max_lost_work
        } else {
            p.max_lost_work
        },
        pci: if p.pci is None {
            d.pci
        } else {
            p.pci
        },
        pstate: if p.pstate is None {
            d.pstate
        } else {
            p.pstate
        },
        graphics: if p.graphics is None {
            d.graphics
        } else {
            p.graphics
        },
    }
}

fn repair_profile(p: &mut Profile, d: Profile)
    ensures
        final(p)@ == repaired(old(p)@, d@),
{
    if p.backlight.is_none() {
        p.backlight = d.backlight;
    }
    if p.laptop_mode == 0 {
        p.laptop_mode = d.laptop_mode;
    }
    if p.max_lost_work == 0 {
        p.max_lost_work = d.max_lost_work;
    }
    if p.pci.is_none() {
        p.pci = d.pci;
    }
    if p.pstate.is_none() {
        p.pstate = d.pstate;
    }
    if p.graphics.is_none() {
        p.graphics = d.graphics;
    }
}

/// Repairing fills in only what is missing: a repaired profile is left as it is by a
/// second repair, and one that lacks nothing is not changed.
pub proof fn lemma_repair_idempotent(p: ProfileView, d: ProfileView)
    ensures
        repaired(repaired(p, d), d) == repaired(p, d),
        (p.backlight is Some && p.laptop_mode != 0 && p.max_lost_work != 0 && p.pci is Some
            && p.pstate is Some && p.graphics is Some) ==> repaired(p, d) == p,
{
}

/// After repair, a built-in profile has every setting, as the built-in defaults do.
pub proof fn lemma_repair_completes(p: ProfileView)
    ensures
        ({
            let r = repaired(p, battery_view());
            r.backlight is Some && r.pci is Some && r.pstate is Some && r.graphics is Some
                && r.laptop_mode != 0 && r.max_lost_work != 0
        }),
        ({
            let r = repaired(p, balanced_view());
            r.backlight is Some && r.pci is Some && r.pstate is Some && r.graphics is Some
                && r.max_lost_work != 0
        }),
        ({
            let r = repaired(p, performance_view());
            r.backlight is Some && r.pci is Some && r.pstate is Some && r.graphics is Some
                && r.max_lost_work != 0
        }),
{
}

/// The three built-in profiles and those that the configuration adds, by name.
#[derive(Clone, Debug)]
pub struct Profiles {
    pub battery: Profile,
    pub balanced: Profile,
    pub performance: Profile,
    pub custom: Vec<(String, Profile)>,
}

impl Default for Profiles {
    fn default() -> (p: Self)
        ensures
            p.battery@ == battery_view(),
            p.balanced@ == balanced_view(),
            p.performance@ == performance_view(),
            p.custom@.len() == 0,
            p.wf(),
    {
        Profiles {
            battery: Profile::battery(),
            balanced: Profile::balanced(),
            performance: Profile::performance(),
            custom: Vec::new(),
        }
    }
}

impl Profiles {
    /// The invariant: no added profile's name occurs twice.
    pub open spec fn wf(&self) -> bool {
        keys_unique(self.custom@)
    }

    /// Adds the profile `profile` under `name`, replacing the one of that name, as a
    /// map's insertion does; the names stay unique.
    pub fn insert(&mut self, name: String, profile: Profile)
        requires
            old(self).wf(),
        ensures
            final(self).wf(),
            final(self).battery == old(self).battery,
            final(self).balanced == old(self).balanced,
            final(self).performance == old(self).performance,
            forall|q: Seq<char>| #[trigger] lookup(final(self).custom@, q) == (if q == name@ {
                Some(profile)
            } else {
                lookup(old(self).custom@, q)
            }),
            names(final(self).custom@) == (if lookup(old(self).custom@, name@) is Some {
                names(old(self).custom@)
            } else {
                names(old(self).custom@).push(name@)
            }),
    {
        insert_entry(&mut self.custom, name, profile);
    }

    /// The profile of that name: a built-in one, else the first added one of that
    /// name, else the balanced one.
    pub open spec fn named(self, name: Seq<char>) -> ProfileView {
        if name == "battery"@ {
            self.battery@
        } else if name == "balanced"@ {
            self.balanced@
        } else if name == "performance"@ {
            self.performance@
        } else {
            match lookup(self.custom@, name) {
                Some(p) => p@,
                None => self.balanced@,
            }
        }
    }

    /// Looking a profile up by name: each built-in name gives that built-in profile;
    /// another name gives the added profile of that name, and the balanced profile when
    /// there is none.
    pub proof fn lemma_named_profile(self, name: Seq<char>)
        ensures
            self.named("battery"@) == self.battery@,
            self.named("balanced"@) == self.balanced@,
            self.named("performance"@) == self.performance@,
            name != "battery"@ && name != "balanced"@ && name != "performance"@ ==> self.named(name) == (
            match lookup(self.custom@, name) {
                Some(p) => p@,
                None => self.balanced@,
            }),
    {
        reveal_strlit("battery");
        reveal_strlit("balanced");
        reveal_strlit("performance");
        assert("battery"@[2] != "balanced"@[2]);
        assert("battery"@[0] != "performance"@[0]);
        assert("balanced"@[0] != "performance"@[0]);
    }

    /// Getting a profile after adding it: the added profile is found under its name
    /// unless that is a built-in one, which always gives the built-in profile; every
    /// other name gives what it gave before.
    pub proof fn lemma_named_after_insert(self, after: Self, name: Seq<char>, profile: Profile, q: Seq<char>)
        requires
            after.battery == self.battery,
            after.balanced == self.balanced,
            after.performance == self.performance,
            forall|k: Seq<char>| #[trigger] lookup(after.custom@, k) == (if k == name {
                Some(profile)
            } else {
                lookup(self.custom@, k)
            }),
        ensures
            name != "battery"@ && name != "balanced"@ && name != "performance"@ ==> after.named(name)
                == profile@,
            q != name ==> after.named(q) == self.named(q),
    {
        assert(lookup(after.custom@, name) == Some(profile));
        assert(lookup(after.custom@, q) == (if q == name {
            Some(profile)
        } else {
            lookup(self.custom@, q)
        }));
    }

    pub fn get(&self, profile: &str) -> (r: &Profile)
        ensures
            r@ == self.named(profile@),
            profile@ == "battery"@ ==> r@ == self.battery@,
            profile@ == "balanced"@ ==> r@ == self.balanced@,
            profile@ == "performance"@ ==> r@ == self.performance@,
    {
        proof {
            self.lemma_named_profile(profile@);
        }
        let name = chars_of(profile);
        if eq_lit(&name, "battery") {
            &self.battery
        } else if eq_lit(&name, "balanced") {
            &self.balanced
        } else if eq_lit(&name, "performance") {
            &self.performance
        } else {
            let key = string_of(&name);
            match find_key(&self.custom, &key) {
                Some(i) => &self.custom[i].1,
                None => &self.balanced,
            }
        }
    }

    /// The names of all profiles: the three built-in ones, then the added ones in order,
    /// each added one once.
    pub fn get_profiles(&self) -> (r: Vec<String>)
        requires
            self.wf(),
        ensures
            string_views(r@) == seq!["battery"@, "balanced"@, "performance"@] + names(self.custom@),
            forall|i: int, j: int| 3 <= i < j < r@.len() ==> r@[i]@ != r@[j]@,
    {
        let mut r: Vec<String> = Vec::new();
        r.push(string_of(&chars_of("battery")));
        r.push(string_of(&chars_of("balanced")));
        r.push(string_of(&chars_of("performance")));
        let mut i: usize = 0;
        while i < self.custom.len()
            invariant
                i <= self.custom@.len(),
                string_views(r@) == seq!["battery"@, "balanced"@, "performance"@] + names(
                    self.custom@,
                ).take(i as int),
            decreases self.custom@.len() - i,
        {
            let ghost old_r = r@;
            let s = self.custom[i].0.clone();
            r.push(s);
            proof {
                lemma_string_views_push(old_r, s);
                assert(names(self.custom@).take(i + 1) =~= names(self.custom@).take(i as int).push(
                    self.custom@[i as int].0@,
                ));
            }
            i = i + 1;
            assert(string_views(r@) =~= seq!["battery"@, "balanced"@, "performance"@] + names(
                self.custom@,
            ).take(i as int));
        }
        assert(names(self.custom@).take(i as int) =~= names(self.custom@));
        proof {
            assert forall|i: int, j: int| 3 <= i < j < r@.len() implies r@[i]@ != r@[j]@ by {
                assert(string_views(r@)[i] == r@[i]@);
                assert(string_views(r@)[j] == r@[j]@);
                assert(names(self.custom@)[i - 3] == self.custom@[i - 3].0@);
                assert(names(self.custom@)[j - 3] == self.custom@[j - 3].0@);
            }
        }
        r
    }

    /// Fills in what the built-in profiles lack from their defaults.
    pub fn repair(&mut self)
        ensures
            final(self).battery@ == repaired(old(self).battery@, battery_view()),
            final(self).balanced@ == repaired(old(self).balanced@, balanced_view()),
            final(self).performance@ == repaired(old(self).performance@, performance_view()),
            final(self).custom@ == old(self).custom@,
            old(self).wf() ==> final(self).wf(),
    {
        repair_profile(&mut self.battery, Profile::battery());
        repair_profile(&mut self.balanced, Profile::balanced());
        repair_profile(&mut self.performance, Profile::performance());
    }

    /// The `[profiles]` sections of the configuration file.
    pub open spec fn toml(self) -> Seq<char> {
        profile_section("battery"@, self.battery@, battery_view(), true) + profile_section(
            "balanced"@,
            self.balanced@,
            balanced_view(),
            false,
        ) + profile_section("performance"@, self.performance@, performance_view(), false)
            + custom_sections(self.custom@)
    }

    /// Appends the `[profiles]` sections.
    pub fn serialize_toml(&self, out: &mut Vec<u8>)
        ensures
            final(out)@ == old(out)@ + encode_utf8(self.toml()),
    {
        let mut t: Vec<char> = Vec::new();
        push_section(&mut t, "battery", &self.battery, &Profile::battery(), true);
        push_section(&mut t, "balanced", &self.balanced, &Profile::balanced(), false);
        push_section(&mut t, "performance", &self.performance, &Profile::performance(), false);
        let ghost head = t@;
        let mut i: usize = 0;
        while i < self.custom.len()
            invariant
                i <= self.custom@.len(),
                t@ == head + custom_sections(self.custom@.take(i as int)),
            decreases self.custom@.len() - i,
        {
            let ghost before = t@;
            push_str(&mut t, "[profiles.");
            push_all(&mut t, &chars_of(self.custom[i].0.as_str()));
            push_str(&mut t, "]\n");
            push_profile_toml(&mut t, &self.custom[i].1);
            proof {
                let c = self.custom@.take(i + 1);
                assert(c.drop_last() =~= self.custom@.take(i as int));
                assert(c.last() == self.custom@[i as int]);
            }
            i = i + 1;
            assert(t@ =~= head + custom_sections(self.custom@.take(i as int)));
        }
        assert(self.custom@.take(i as int) =~= self.custom@);
        assert(t@ =~= self.toml());
        push_text(out, &t);
    }
}

} // verus!
