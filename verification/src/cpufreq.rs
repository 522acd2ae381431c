//! CPU frequency scaling: the governor, energy preference and frequency limits that
//! each power profile sets on every core.
use crate::sysfs::{write_of, SysfsWrite};
use crate::text::{
    chars_of, decimal, eq_lit, parse_unsigned, parse_usize_chars, push_decimal, push_str,
    second_field, second_field_chars, starts_with, starts_with_chars, string_of, trim, trim_chars,
    trim_end, trim_end_chars,
};
use crate::Profile;
use vstd::prelude::*;

verus! {

/// The cpufreq directory of a core.
pub open spec fn cpu_path(core: nat) -> Seq<char> {
    "/sys/devices/system/cpu/cpu"@ + decimal(core) + "/cpufreq/"@
}

fn cpu_path_chars(core: usize) -> (v: Vec<char>)
    ensures
        v@ == cpu_path(core as nat),
{
    let mut v: Vec<char> = Vec::new();
    push_str(&mut v, "/sys/devices/system/cpu/cpu");
    push_decimal(&mut v, core as u64);
    push_str(&mut v, "/cpufreq/");
    assert(v@ =~= cpu_path(core as nat));
    v
}

/// The cpufreq files of one core.
#[derive(Clone, Debug)]
pub struct Cpu {
    pub path: String,
}

impl Cpu {
    pub fn new(core: usize) -> (c: Self)
        ensures
            c.path@ == cpu_path(core as nat),
    {
        Cpu { path: string_of(&cpu_path_chars(core)) }
    }

    /// Moves to the files of another core.
    pub fn load(&mut self, core: usize)
        ensures
            final(self).path@ == cpu_path(core as nat),
    {
        self.path = string_of(&cpu_path_chars(core));
    }

    /// The path of one of the core's files.
    pub fn file(&self, name: &str) -> (p: String)
        ensures
            p@ == self.path@ + name@,
    {
        let mut v = chars_of(self.path.as_str());
        push_str(&mut v, name);
        string_of(&v)
    }

    fn write(&self, name: &str, value: &Vec<char>) -> (w: SysfsWrite)
        ensures
            w@ == (self.path@ + name@, value@),
    {
        let mut p = chars_of(self.path.as_str());
        push_str(&mut p, name);
        write_of(&p, value)
    }

    /// The frequency in a `cpuinfo_max_freq` file that could be read.
    pub fn frequency_maximum(text: Option<&str>) -> (f: Option<usize>)
        ensures
            f == frequency_of(text),
    {
        frequency(text)
    }

    /// The frequency in a `cpuinfo_min_freq` file that could be read.
    pub fn frequency_minimum(text: Option<&str>) -> (f: Option<usize>)
        ensures
            f == frequency_of(text),
    {
        frequency(text)
    }

    /// The driver named in a `scaling_driver` file that could be read: its text,
    /// trimmed.
    pub fn scaling_driver(text: Option<&str>) -> (d: Option<String>)
        ensures
            match text {
                Some(t) => d matches Some(s) && s@ == trim(t@),
                None => d is None,
            },
    {
        match text {
            Some(t) => Some(string_of(&trim_chars(&chars_of(t)))),
            None => None,
        }
    }

    /// The write of the energy performance preference.
    pub fn set_epp(&self, preference: &str) -> (w: SysfsWrite)
        ensures
            w@ == (self.path@ + "energy_performance_preference"@, preference@),
    {
        self.write("energy_performance_preference", &chars_of(preference))
    }

    /// The write of the highest frequency the governor may pick.
    pub fn set_frequency_maximum(&self, frequency: usize) -> (w: SysfsWrite)
        ensures
            w@ == (self.path@ + "scaling_max_freq"@, decimal(frequency as nat)),
    {
        let mut v: Vec<char> = Vec::new();
        push_decimal(&mut v, frequency as u64);
        self.write("scaling_max_freq", &v)
    }

    /// The write of the lowest frequency the governor may pick.
    pub fn set_frequency_minimum(&self, frequency: usize) -> (w: SysfsWrite)
        ensures
            w@ == (self.path@ + "scaling_min_freq"@, decimal(frequency as nat)),
    {
        let mut v: Vec<char> = Vec::new();
        push_decimal(&mut v, frequency as u64);
        self.write("scaling_min_freq", &v)
    }

    /// The write of the scaling governor.
    pub fn set_governor(&self, governor: &str) -> (w: SysfsWrite)
        ensures
            w@ == (self.path@ + "scaling_governor"@, governor@),
    {
        self.write("scaling_governor", &chars_of(governor))
    }
}

/// A frequency file's number: its text, trimmed, as a decimal `usize`.
pub open spec fn frequency_of(text: Option<&str>) -> Option<usize> {
    match text {
        Some(t) => match parse_unsigned(trim(t@), 10, usize::MAX as int) {
            Some(v) => Some(v as usize),
            None => None,
        },
        None => None,
    }
}

fn frequency(text: Option<&str>) -> (f: Option<usize>)
    ensures
        f == frequency_of(text),
{
    match text {
        Some(t) => {
            let v = trim_chars(&chars_of(t));
            parse_usize_chars(&v)
        },
        None => None,
    }
}

/// The highest core number, from `/sys/devices/system/cpu/possible` (`0-N`): the text
/// after the first `-`, with trailing whitespace dropped, as a decimal number.
pub open spec fn last_cpu(text: Seq<char>) -> Option<usize> {
    match second_field(text, '-') {
        Some(f) => match parse_unsigned(trim_end(f), 10, usize::MAX as int) {
            Some(v) => Some(v as usize),
            None => None,
        },
        None => None,
    }
}

pub fn num_cpus(possible: &str) -> (n: Option<usize>)
    ensures
        n == last_cpu(possible@),
{
    match second_field_chars(&chars_of(possible), '-') {
        Some(f) => {
            let t = trim_end_chars(&f);
            parse_usize_chars(&t)
        },
        None => None,
    }
}

/// The scaling governor and energy performance preference of a profile under a
/// driver: battery life first for the battery profile, efficiency for the balanced one,
/// speed for the performance one.
pub open spec fn governor_for(profile: Profile, driver: Seq<char>) -> (Seq<char>, Option<Seq<char>>) {
    match profile {
        Profile::Battery => if driver == "amd-pstate"@ || driver == "intel_pstate"@ {
            ("powersave"@, None)
        } else if driver == "amd-pstate-epp"@ {
            ("powersave"@, Some("balance_power"@))
        } else {
            ("conservative"@, None)
        },
        Profile::Balanced => if driver == "amd-pstate"@ {
            ("ondemand"@, None)
        } else if driver == "amd-pstate-epp"@ {
            ("powersave"@, Some("balance_performance"@))
        } else if driver == "intel_pstate"@ {
            ("powersave"@, None)
        } else {
            ("schedutil"@, None)
        },
        Profile::Performance => if driver == "amd-pstate-epp"@ {
            ("performance"@, Some("performance"@))
        } else {
            ("performance"@, None)
        },
    }
}

pub open spec fn opt_str_view(s: Option<&'static str>) -> Option<Seq<char>> {
    match s {
        Some(x) => Some(x@),
        None => None,
    }
}

pub fn governor(profile: Profile, driver: &str) -> (r: (&'static str, Option<&'static str>))
    ensures
        (r.0@, opt_str_view(r.1)) == governor_for(profile, driver@),
        (r.0@ == "performance"@) <==> profile == Profile::Performance,
{
    proof {
        lemma_governor_follows_profile(profile, driver@);
    }
    let d = chars_of(driver);
    match profile {
        Profile::Battery => if eq_lit(&d, "amd-pstate") || eq_lit(&d, "intel_pstate") {
            ("powersave", None)
        } else if eq_lit(&d, "amd-pstate-epp") {
            ("powersave", Some("balance_power"))
        } else {
            ("conservative", None)
        },
        Profile::Balanced => if eq_lit(&d, "amd-pstate") {
            ("ondemand", None)
        } else if eq_lit(&d, "amd-pstate-epp") {
            ("powersave", Some("balance_performance"))
        } else if eq_lit(&d, "intel_pstate") {
            ("powersave", None)
        } else {
            ("schedutil", None)
        },
        Profile::Performance => if eq_lit(&d, "amd-pstate-epp") {
            ("performance", Some("performance"))
        } else {
            ("performance", None)
        },
    }
}

/// Each profile picks its own scaling: the `performance` governor exactly for the
/// performance profile; for the battery profile the `conservative` governor where the
/// driver has no power-saving one of its own, and `powersave` on the P-state drivers; an
/// energy performance preference only under `amd-pstate-epp`, and there the one of the
/// profile (`balance_power`, `balance_performance`, `performance`).
pub proof fn lemma_governor_follows_profile(profile: Profile, driver: Seq<char>)
    ensures
        (governor_for(profile, driver).0 == "performance"@) <==> profile == Profile::Performance,
        (governor_for(profile, driver).1 is Some) <==> driver == "amd-pstate-epp"@,
        driver == "amd-pstate-epp"@ ==> governor_for(profile, driver).1 == Some(
            match profile {
                Profile::Battery => "balance_power"@,
                Profile::Balanced => "balance_performance"@,
                Profile::Performance => "performance"@,
            },
        ),
        profile == Profile::Battery ==> (governor_for(profile, driver).0 == "conservative"@ <==> !(
        driver == "amd-pstate"@ || driver == "intel_pstate"@ || driver == "amd-pstate-epp"@)),
        profile == Profile::Battery && (driver == "amd-pstate"@ || driver == "intel_pstate"@ || driver
            == "amd-pstate-epp"@) ==> governor_for(profile, driver).0 == "powersave"@,
        profile == Profile::Balanced && !(driver == "amd-pstate"@ || driver == "intel_pstate"@ || driver
            == "amd-pstate-epp"@) ==> governor_for(profile, driver).0 == "schedutil"@,
{
    reveal_strlit("performance");
    reveal_strlit("powersave");
    reveal_strlit("conservative");
    reveal_strlit("ondemand");
    reveal_strlit("schedutil");
    assert("performance"@[0] != "powersave"@[1] || "performance"@.len() != "powersave"@.len());
    assert("performance"@.len() != "conservative"@.len());
    assert("performance"@.len() != "ondemand"@.len());
    assert("performance"@.len() != "schedutil"@.len());
    assert("conservative"@.len() != "powersave"@.len());
    reveal_strlit("amd-pstate");
    reveal_strlit("amd-pstate-epp");
    reveal_strlit("intel_pstate");
    assert("amd-pstate"@.len() != "amd-pstate-epp"@.len());
    assert("intel_pstate"@.len() != "amd-pstate-epp"@.len());
    assert("amd-pstate"@.len() != "intel_pstate"@.len());
}

/// What a profile sets on cores `0..=last_cpu`: the governor, the preference where
/// there is one, and the frequency limits unless an `amd-pstate` driver manages them.
#[derive(Clone, Copy, Debug)]
pub struct CpuFreqPlan {
    pub governor: &'static str,
    pub epp: Option<&'static str>,
    pub limits: Option<(usize, usize)>,
    pub last_cpu: usize,
}

/// The percentage cap, at most 100.
pub open spec fn capped(max_percent: u8) -> nat {
    if max_percent < 100 {
        max_percent as nat
    } else {
        100
    }
}

/// The frequency scaling a profile sets, with the maximum frequency capped at
/// `max_percent`: none when the scaling driver, the number of cores or the frequency
/// range is unknown.
pub fn set(
    profile: Profile,
    max_percent: u8,
    driver: Option<&str>,
    cpus: Option<usize>,
    min_freq: Option<usize>,
    max_freq: Option<usize>,
) -> (plan: Option<CpuFreqPlan>)
    requires
        max_freq matches Some(m) ==> m * capped(max_percent) <= usize::MAX,
    ensures
        match plan {
            Some(p) => driver matches Some(d) && cpus matches Some(n) && min_freq matches Some(lo)
                && max_freq matches Some(hi) && (p.governor@, opt_str_view(p.epp)) == governor_for(
                profile,
                d@,
            ) && p.last_cpu == n && p.limits == (if starts_with(d@, "amd-pstate"@) {
                None
            } else {
                Some((lo, (hi * capped(max_percent) / 100) as usize))
            }),
            None => driver is None || cpus is None || min_freq is None || max_freq is None,
        },
{
    match (driver, cpus, min_freq, max_freq) {
        (Some(d), Some(n), Some(lo), Some(hi)) => {
            let (g, epp) = governor(profile, d);
            let pct: usize = if max_percent < 100 {
                max_percent as usize
            } else {
                100
            };
            let max = hi * pct / 100;
            let is_amd_pstate = starts_with_chars(&chars_of(d), &chars_of("amd-pstate"));
            Some(
                CpuFreqPlan {
                    governor: g,
                    epp,
                    limits: if is_amd_pstate {
                        None
                    } else {
                        Some((lo, max))
                    },
                    last_cpu: n,
                },
            )
        },
        _ => None,
    }
}


/// The frequency cap never raises the maximum frequency, and a cap of 100% or more
/// leaves it as it is.
pub proof fn lemma_capped_max(max_freq: nat, max_percent: u8)
    ensures
        max_freq * capped(max_percent) / 100 <= max_freq,
        max_percent >= 100 ==> max_freq * capped(max_percent) / 100 == max_freq,
{
    assert(max_freq * capped(max_percent) <= max_freq * 100) by (nonlinear_arith)
        requires
            capped(max_percent) <= 100,
    ;
    assert(max_freq * capped(max_percent) / 100 <= max_freq) by (nonlinear_arith)
        requires
            max_freq * capped(max_percent) <= max_freq * 100,
    ;
    if max_percent >= 100 {
        assert(max_freq * 100 / 100 == max_freq) by (nonlinear_arith);
    }
}

} // verus!
