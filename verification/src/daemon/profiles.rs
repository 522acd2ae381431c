//! What each power profile sets: the kernel parameters, devices and firmware limits
//! that the daemon writes when a profile is applied, collected as a plan.
use crate::sysfs::{write_of, writes_view, SysfsWrite};
use crate::text::{
    chars_of, decimal, eq_lit, lemma_string_views_push, push_decimal, push_str, string_of,
    string_views, trim, trim_chars,
};
use crate::Profile;
use vstd::prelude::*;

verus! {

/// The platform profile to apply through ACPI, where the kernel supports it.
#[derive(Clone, Copy, Debug, PartialEq, Eq, Structural)]
pub enum PlatformChoice {
    /// `low-power` or `quiet`, else the first choice.
    LowPower,
    Balanced,
    Performance,
}

/// How a backlight is set: lowered to the value if it is brighter, or set to it.
#[derive(Clone, Copy, Debug, PartialEq, Eq, Structural)]
pub enum BacklightStrategy {
    SetIfLowerThan,
    SetTo,
}

/// The Intel P-state values: HWP dynamic boost where it is set, the performance range
/// in percent, and whether turbo is off.
#[derive(Clone, Copy, Debug, PartialEq, Eq, Structural)]
pub struct PStateValues {
    pub hwp_dynamic_boost: Option<bool>,
    pub min_perf_pct: u8,
    pub max_perf_pct: u8,
    pub no_turbo: bool,
}

/// The power limits given to `ryzenadj`.
#[derive(Clone, Copy, Debug, PartialEq, Eq, Structural)]
pub enum RyzenSetting {
    /// STAPM, fast and slow limits in milliwatts, and the temperature limit in degrees.
    Limits(u32, u32, u32, u32),
    MaxPerformance,
}

/// Everything a profile sets, in the order it is applied.
#[derive(Clone, Copy, Debug)]
pub struct ProfilePlan {
    pub platform: PlatformChoice,
    /// Seconds of work the kernel may keep in memory.
    pub max_lost_work: u32,
    pub laptop_mode: &'static str,
    /// The AMD power profile, DPM state and forced DPM performance level.
    pub radeon: (&'static str, &'static str, &'static str),
    /// The SCSI link power policies, the first that a host takes being kept.
    pub scsi_policies: (&'static str, &'static str),
    /// The screen and keyboard backlights, each with its value, when set.
    pub screen_backlight: Option<(BacklightStrategy, u64)>,
    pub keyboard_backlight: Option<(BacklightStrategy, u64)>,
    /// Runtime power management of PCI devices, where it is supported.
    pub pci_runtime_pm: bool,
    /// The profile and frequency cap, in percent, for CPU frequency scaling.
    pub cpufreq: (Profile, u8),
    pub pstate: PStateValues,
    pub pcie_aspm: &'static str,
    pub i2c_runtime_pm: bool,
    pub ryzen: RyzenSetting,
}

/// Sets parameters for the balanced profile.
pub fn balanced(set_brightness: bool) -> (p: ProfilePlan)
    ensures
        p == balanced_plan(set_brightness),
        p.cpufreq.0 == Profile::Balanced,
        p.platform == PlatformChoice::Balanced,
{
    ProfilePlan {
        platform: PlatformChoice::Balanced,
        max_lost_work: 15,
        laptop_mode: "2",
        radeon: ("auto", "performance", "auto"),
        scsi_policies: ("med_power_with_dipm", "medium_power"),
        screen_backlight: if set_brightness {
            Some((BacklightStrategy::SetIfLowerThan, 40))
        } else {
            None
        },
        keyboard_backlight: if set_brightness {
            Some((BacklightStrategy::SetIfLowerThan, 50))
        } else {
            None
        },
        pci_runtime_pm: true,
        cpufreq: (Profile::Balanced, 100),
        pstate: PStateValues {
            hwp_dynamic_boost: Some(true),
            min_perf_pct: 0,
            max_perf_pct: 100,
            no_turbo: false,
        },
        pcie_aspm: "default",
        i2c_runtime_pm: true,
        ryzen: RyzenSetting::Limits(25_000, 35_000, 20_000, 85),
    }
}

/// Sets parameters for the performance profile; the backlights are left as they are.
pub fn performance(set_brightness: bool) -> (p: ProfilePlan)
    ensures
        p == performance_plan(set_brightness),
        p.cpufreq.0 == Profile::Performance,
        p.platform == PlatformChoice::Performance,
{
    ProfilePlan {
        platform: PlatformChoice::Performance,
        max_lost_work: 10,
        laptop_mode: "0",
        radeon: ("high", "performance", "auto"),
        scsi_policies: ("med_power_with_dipm", "max_performance"),
        screen_backlight: None,
        keyboard_backlight: None,
        pci_runtime_pm: false,
        cpufreq: (Profile::Performance, 100),
        pstate: PStateValues {
            hwp_dynamic_boost: Some(true),
            min_perf_pct: 0,
            max_perf_pct: 100,
            no_turbo: false,
        },
        pcie_aspm: "default",
        i2c_runtime_pm: false,
        ryzen: RyzenSetting::MaxPerformance,
    }
}

/// Sets parameters for the battery profile.
pub fn battery(set_brightness: bool) -> (p: ProfilePlan)
    ensures
        p == battery_plan(set_brightness),
        p.cpufreq.0 == Profile::Battery,
        p.platform == PlatformChoice::LowPower,
{
    ProfilePlan {
        platform: PlatformChoice::LowPower,
        max_lost_work: 30,
        laptop_mode: "2",
        radeon: ("low", "battery", "low"),
        scsi_policies: ("min_power", "min_power"),
        screen_backlight: if set_brightness {
            Some((BacklightStrategy::SetIfLowerThan, 10))
        } else {
            None
        },
        keyboard_backlight: if set_brightness {
            Some((BacklightStrategy::SetTo, 0))
        } else {
            None
        },
        pci_runtime_pm: true,
        cpufreq: (Profile::Battery, 60),
        pstate: PStateValues { hwp_dynamic_boost: None, min_perf_pct: 0, max_perf_pct: 25, no_turbo: true },
        pcie_aspm: "powersupersave",
        i2c_runtime_pm: true,
        ryzen: RyzenSetting::Limits(12_000, 18_000, 10_000, 60),
    }
}

/// The plan of a profile.
pub fn plan(profile: Profile, set_brightness: bool) -> (p: ProfilePlan)
    ensures
        p == match profile {
            Profile::Battery => battery_plan(set_brightness),
            Profile::Balanced => balanced_plan(set_brightness),
            Profile::Performance => performance_plan(set_brightness),
        },
        p == plan_of(profile, set_brightness),
        p.cpufreq.0 == profile,
{
    match profile {
        Profile::Battery => battery(set_brightness),
        Profile::Balanced => balanced(set_brightness),
        Profile::Performance => performance(set_brightness),
    }
}

/// The balanced plan, as `balanced` returns it.
pub open spec fn balanced_plan(set_brightness: bool) -> ProfilePlan {
    ProfilePlan {
        platform: PlatformChoice::Balanced,
        max_lost_work: 15,
        laptop_mode: "2",
        radeon: ("auto", "performance", "auto"),
        scsi_policies: ("med_power_with_dipm", "medium_power"),
        screen_backlight: if set_brightness {
            Some((BacklightStrategy::SetIfLowerThan, 40))
        } else {
            None
        },
        keyboard_backlight: if set_brightness {
            Some((BacklightStrategy::SetIfLowerThan, 50))
        } else {
            None
        },
        pci_runtime_pm: true,
        cpufreq: (Profile::Balanced, 100),
        pstate: PStateValues {
            hwp_dynamic_boost: Some(true),
            min_perf_pct: 0,
            max_perf_pct: 100,
            no_turbo: false,
        },
        pcie_aspm: "default",
        i2c_runtime_pm: true,
        ryzen: RyzenSetting::Limits(25_000, 35_000, 20_000, 85),
    }
}

/// The performance plan, as `performance` returns it.
pub open spec fn performance_plan(set_brightness: bool) -> ProfilePlan {
    ProfilePlan {
        platform: PlatformChoice::Performance,
        max_lost_work: 10,
        laptop_mode: "0",
        radeon: ("high", "performance", "auto"),
        scsi_policies: ("med_power_with_dipm", "max_performance"),
        screen_backlight: None,
        keyboard_backlight: None,
        pci_runtime_pm: false,
        cpufreq: (Profile::Performance, 100),
        pstate: PStateValues {
            hwp_dynamic_boost: Some(true),
            min_perf_pct: 0,
            max_perf_pct: 100,
            no_turbo: false,
        },
        pcie_aspm: "default",
        i2c_runtime_pm: false,
        ryzen: RyzenSetting::MaxPerformance,
    }
}

/// The battery plan, as `battery` returns it.
pub open spec fn battery_plan(set_brightness: bool) -> ProfilePlan {
    ProfilePlan {
        platform: PlatformChoice::LowPower,
        max_lost_work: 30,
        laptop_mode: "2",
        radeon: ("low", "battery", "low"),
        scsi_policies: ("min_power", "min_power"),
        screen_backlight: if set_brightness {
            Some((BacklightStrategy::SetIfLowerThan, 10))
        } else {
            None
        },
        keyboard_backlight: if set_brightness {
            Some((BacklightStrategy::SetTo, 0))
        } else {
            None
        },
        pci_runtime_pm: true,
        cpufreq: (Profile::Battery, 60),
        pstate: PStateValues { hwp_dynamic_boost: None, min_perf_pct: 0, max_perf_pct: 25, no_turbo: true },
        pcie_aspm: "powersupersave",
        i2c_runtime_pm: true,
        ryzen: RyzenSetting::Limits(12_000, 18_000, 10_000, 60),
    }
}

/// The three profiles order the machine from most saving to fastest: the battery
/// profile keeps the most work in memory and caps the CPU lowest, the performance one
/// the least and not at all, and only the performance profile leaves PCI runtime power
/// management and the backlights alone.
pub proof fn lemma_profiles_ordered(set_brightness: bool)
    ensures
        battery_plan(set_brightness).max_lost_work > balanced_plan(set_brightness).max_lost_work
            > performance_plan(set_brightness).max_lost_work,
        battery_plan(set_brightness).cpufreq.1 < balanced_plan(set_brightness).cpufreq.1,
        balanced_plan(set_brightness).cpufreq.1 == performance_plan(set_brightness).cpufreq.1,
        battery_plan(set_brightness).pstate.max_perf_pct < performance_plan(
            set_brightness,
        ).pstate.max_perf_pct,
        !performance_plan(set_brightness).pci_runtime_pm,
        performance_plan(set_brightness).screen_backlight is None,
        set_brightness ==> battery_plan(set_brightness).screen_backlight is Some
            && balanced_plan(set_brightness).screen_backlight is Some,
{
}

/// The plan of a profile, by the profile.
pub open spec fn plan_of(profile: Profile, set_brightness: bool) -> ProfilePlan {
    match profile {
        Profile::Battery => battery_plan(set_brightness),
        Profile::Balanced => balanced_plan(set_brightness),
        Profile::Performance => performance_plan(set_brightness),
    }
}

/// The platform profile that goes with a power profile.
pub open spec fn platform_of(profile: Profile) -> PlatformChoice {
    match profile {
        Profile::Battery => PlatformChoice::LowPower,
        Profile::Balanced => PlatformChoice::Balanced,
        Profile::Performance => PlatformChoice::Performance,
    }
}

/// Each profile configures the machine for itself: CPU frequency scaling takes the same
/// profile and the platform the matching choice; only the battery profile caps the CPU
/// (below 100 percent, turbo off, the `powersupersave` PCIe policy, the low AMD power
/// profile and the `battery` DPM state); only the performance profile lifts the Ryzen
/// limits, turns laptop mode off, raises the AMD power profile to `high` and leaves PCI
/// runtime power management and the backlights alone; the balanced profile keeps the
/// AMD power profile on `auto`; the backlights are touched only when asked.
pub proof fn lemma_plan_follows_profile(profile: Profile, set_brightness: bool)
    ensures
        plan_of(profile, set_brightness).cpufreq.0 == profile,
        plan_of(profile, set_brightness).platform == platform_of(profile),
        (plan_of(profile, set_brightness).cpufreq.1 < 100) <==> profile == Profile::Battery,
        plan_of(profile, set_brightness).cpufreq.1 <= 100,
        plan_of(profile, set_brightness).pstate.no_turbo <==> profile == Profile::Battery,
        (plan_of(profile, set_brightness).pstate.max_perf_pct == 100) <==> profile != Profile::Battery,
        plan_of(profile, set_brightness).pstate.min_perf_pct == 0,
        (plan_of(profile, set_brightness).pcie_aspm@ == "powersupersave"@) <==> profile == Profile::Battery,
        profile != Profile::Battery ==> plan_of(profile, set_brightness).pcie_aspm@ == "default"@,
        (plan_of(profile, set_brightness).ryzen == RyzenSetting::MaxPerformance) <==> profile
            == Profile::Performance,
        (plan_of(profile, set_brightness).laptop_mode@ == "0"@) <==> profile == Profile::Performance,
        profile != Profile::Performance ==> plan_of(profile, set_brightness).laptop_mode@ == "2"@,
        plan_of(profile, set_brightness).pci_runtime_pm <==> profile != Profile::Performance,
        plan_of(profile, set_brightness).i2c_runtime_pm <==> profile != Profile::Performance,
        plan_of(profile, set_brightness).radeon.0@ == (match profile {
            Profile::Battery => "low"@,
            Profile::Balanced => "auto"@,
            Profile::Performance => "high"@,
        }),
        plan_of(profile, set_brightness).radeon.1@ == (if profile == Profile::Battery {
            "battery"@
        } else {
            "performance"@
        }),
        (plan_of(profile, set_brightness).screen_backlight is Some) <==> (set_brightness && profile
            != Profile::Performance),
        (plan_of(profile, set_brightness).keyboard_backlight is Some) <==> (set_brightness && profile
            != Profile::Performance),
{
    reveal_strlit("powersupersave");
    reveal_strlit("default");
    reveal_strlit("0");
    reveal_strlit("2");
    assert("default"@.len() != "powersupersave"@.len());
    assert("2"@[0] != "0"@[0]);
}

/// The arguments of `ryzenadj` that set the power and temperature limits.
pub open spec fn ryzen_args(stapm: u32, fast: u32, slow: u32, tctl: u32) -> Seq<Seq<char>> {
    seq![
        "--stapm-limit="@ + decimal(stapm as nat),
        "--fast-limit="@ + decimal(fast as nat),
        "--slow-limit="@ + decimal(slow as nat),
        "--tctl-temp="@ + decimal(tctl as nat),
    ]
}

fn arg_with_number(prefix: &str, n: u32) -> (s: String)
    ensures
        s@ == prefix@ + decimal(n as nat),
{
    let mut v = chars_of(prefix);
    push_decimal(&mut v, n as u64);
    string_of(&v)
}

pub fn set_ryzen_limits(stapm_limit: u32, fast_limit: u32, slow_limit: u32, tctl_temp: u32) -> (args: Vec<String>)
    ensures
        string_views(args@) == ryzen_args(stapm_limit, fast_limit, slow_limit, tctl_temp),
{
    let mut args: Vec<String> = Vec::new();
    args.push(arg_with_number("--stapm-limit=", stapm_limit));
    args.push(arg_with_number("--fast-limit=", fast_limit));
    args.push(arg_with_number("--slow-limit=", slow_limit));
    args.push(arg_with_number("--tctl-temp=", tctl_temp));
    assert(string_views(args@) =~= ryzen_args(stapm_limit, fast_limit, slow_limit, tctl_temp));
    args
}

pub fn set_ryzen_max_performance() -> (args: Vec<String>)
    ensures
        string_views(args@) == seq!["--max-performance"@],
{
    let mut args: Vec<String> = Vec::new();
    args.push(string_of(&chars_of("--max-performance")));
    assert(string_views(args@) =~= seq!["--max-performance"@]);
    args
}

/// The arguments of `ryzenadj` for a setting.
pub fn ryzen_args_for(setting: RyzenSetting) -> (args: Vec<String>)
    ensures
        string_views(args@) == match setting {
            RyzenSetting::Limits(a, b, c, d) => ryzen_args(a, b, c, d),
            RyzenSetting::MaxPerformance => seq!["--max-performance"@],
        },
{
    match setting {
        RyzenSetting::Limits(a, b, c, d) => set_ryzen_limits(a, b, c, d),
        RyzenSetting::MaxPerformance => set_ryzen_max_performance(),
    }
}

/// The power limits and thermal offset of a model, for one profile.
#[derive(Clone, Copy, Debug, PartialEq, Eq, Structural)]
pub struct ModelProfile {
    pub pl1: Option<u8>,
    pub pl2: Option<u8>,
    pub tcc_offset: Option<u8>,
}

/// The register of the thermal control circuit offset, in the model specific registers.
pub const MSR_TEMPERATURE_TARGET: u64 = 0x1A2;

/// What a model profile writes: the power limits in microwatts, then the thermal
/// offset into the temperature target register.
#[derive(Clone, Debug)]
pub struct ModelSettings {
    pub power_limits: Vec<SysfsWrite>,
    pub tcc_offset: Option<u8>,
}

/// The file of the first (long term) power limit.
pub open spec fn pl1_path() -> Seq<char> {
    "/sys/class/powercap/intel-rapl:0/constraint_0_power_limit_uw"@
}

/// The file of the second (short term) power limit.
pub open spec fn pl2_path() -> Seq<char> {
    "/sys/class/powercap/intel-rapl:0/constraint_1_power_limit_uw"@
}

/// The power limit writes of a model profile: each limit that is set, in watts times a
/// million.
pub open spec fn limit_writes(p: ModelProfile) -> Seq<(Seq<char>, Seq<char>)> {
    (match p.pl1 {
        Some(w) => seq![(pl1_path(), decimal(w as nat * 1_000_000))],
        None => Seq::empty(),
    }) + (match p.pl2 {
        Some(w) => seq![(pl2_path(), decimal(w as nat * 1_000_000))],
        None => Seq::empty(),
    })
}

impl ModelProfile {
    /// What this profile sets, once `thermald` is stopped, since it sets the limits on
    /// its own.
    pub fn set(&self) -> (s: ModelSettings)
        ensures
            writes_view(s.power_limits@) == limit_writes(*self),
            s.tcc_offset == self.tcc_offset,
    {
        let mut w: Vec<SysfsWrite> = Vec::new();
        if let Some(pl1) = self.pl1 {
            let mut v: Vec<char> = Vec::new();
            push_decimal(&mut v, pl1 as u64 * 1_000_000);
            w.push(write_of(&chars_of("/sys/class/powercap/intel-rapl:0/constraint_0_power_limit_uw"), &v));
        }
        let ghost mid = w@;
        if let Some(pl2) = self.pl2 {
            let mut v: Vec<char> = Vec::new();
            push_decimal(&mut v, pl2 as u64 * 1_000_000);
            w.push(write_of(&chars_of("/sys/class/powercap/intel-rapl:0/constraint_1_power_limit_uw"), &v));
        }
        assert(writes_view(w@) =~= limit_writes(*self));
        ModelSettings { power_limits: w, tcc_offset: self.tcc_offset }
    }
}

/// The temperature target register with the offset in its fourth byte.
pub fn apply_tcc_offset(data: [u8; 8], tcc_offset: u8) -> (r: [u8; 8])
    ensures
        r@ == data@.update(3, tcc_offset),
{
    let mut r = data;
    r[3] = tcc_offset;
    r
}

/// The model profiles of the machines that have them, for each power profile.
#[derive(Clone, Copy, Debug, PartialEq, Eq, Structural)]
pub struct ModelProfiles {
    pub balanced: ModelProfile,
    pub performance: ModelProfile,
    pub battery: ModelProfile,
}

/// The model profiles of `galp5` and `lemp9`.
pub open spec fn model_profiles(model: Seq<char>) -> Option<ModelProfiles> {
    if model == "galp5"@ {
        Some(
            ModelProfiles {
                balanced: ModelProfile { pl1: Some(28), pl2: None, tcc_offset: Some(12) },
                performance: ModelProfile { pl1: Some(40), pl2: None, tcc_offset: Some(7) },
                battery: ModelProfile { pl1: Some(12), pl2: None, tcc_offset: Some(32) },
            },
        )
    } else if model == "lemp9"@ {
        Some(
            ModelProfiles {
                balanced: ModelProfile { pl1: Some(20), pl2: Some(40), tcc_offset: Some(12) },
                performance: ModelProfile { pl1: Some(30), pl2: Some(50), tcc_offset: Some(2) },
                battery: ModelProfile { pl1: Some(10), pl2: Some(30), tcc_offset: Some(32) },
            },
        )
    } else {
        None
    }
}

/// On the machines with model profiles the power limits rise and the thermal offset
/// (how far below the critical temperature the CPU is held) falls from the battery
/// profile through the balanced one to the performance one; every profile sets the
/// long-term limit and the offset, and a model sets the short-term limit in all of its
/// profiles or in none. Likewise the Ryzen limits of the battery profile lie below those
/// of the balanced one.
pub proof fn lemma_model_profiles_ordered(model: Seq<char>)
    ensures
        model_profiles(model) matches Some(m) ==> {
            &&& m.battery.pl1 is Some && m.balanced.pl1 is Some && m.performance.pl1 is Some
            &&& m.battery.pl1.unwrap() < m.balanced.pl1.unwrap() < m.performance.pl1.unwrap()
            &&& m.battery.tcc_offset is Some && m.balanced.tcc_offset is Some
                && m.performance.tcc_offset is Some
            &&& m.battery.tcc_offset.unwrap() > m.balanced.tcc_offset.unwrap()
                > m.performance.tcc_offset.unwrap()
            &&& m.battery.pl2 is Some <==> m.performance.pl2 is Some
            &&& m.balanced.pl2 is Some <==> m.performance.pl2 is Some
            &&& m.battery.pl2 is Some ==> m.battery.pl2.unwrap() < m.balanced.pl2.unwrap()
                < m.performance.pl2.unwrap()
        },
        (model == "galp5"@ || model == "lemp9"@) <==> model_profiles(model) is Some,
        battery_plan(false).ryzen matches RyzenSetting::Limits(a, b, c, d) && balanced_plan(
            false,
        ).ryzen matches RyzenSetting::Limits(e, f, g, h) && a < e && b < f && c < g && d < h,
{
}

impl ModelProfiles {
    /// The model profiles for the machine whose product version the DMI tables give
    /// (the file's text, trimmed).
    pub fn new(product_version: &str) -> (r: Option<Self>)
        ensures
            r == model_profiles(trim(product_version@)),
    {
        let model = trim_chars(&chars_of(product_version));
        if eq_lit(&model, "galp5") {
            Some(
                Self {
                    // galp5 does not take a second power limit
                    balanced: ModelProfile { pl1: Some(28), pl2: None, tcc_offset: Some(12) },
                    performance: ModelProfile { pl1: Some(40), pl2: None, tcc_offset: Some(7) },
                    battery: ModelProfile { pl1: Some(12), pl2: None, tcc_offset: Some(32) },
                },
            )
        } else if eq_lit(&model, "lemp9") {
            Some(
                Self {
                    balanced: ModelProfile { pl1: Some(20), pl2: Some(40), tcc_offset: Some(12) },
                    performance: ModelProfile { pl1: Some(30), pl2: Some(50), tcc_offset: Some(2) },
                    battery: ModelProfile { pl1: Some(10), pl2: Some(30), tcc_offset: Some(32) },
                },
            )
        } else {
            None
        }
    }

    /// The model profile for a power profile.
    pub fn for_profile(&self, profile: Profile) -> (m: ModelProfile)
        ensures
            m == match profile {
                Profile::Battery => self.battery,
                Profile::Balanced => self.balanced,
                Profile::Performance => self.performance,
            },
    {
        match profile {
            Profile::Battery => self.battery,
            Profile::Balanced => self.balanced,
            Profile::Performance => self.performance,
        }
    }
}

} // verus!
