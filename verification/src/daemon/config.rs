//! The daemon's configuration: fan curves and power profiles, merged from the system
//! default and the user's file.
use crate::entries::{find_key, keys_unique, lemma_lookup_push, lemma_lookup_set, lookup};
use crate::fan::{FanCurve, FanPoint};
use vstd::prelude::*;

verus! {

/// How the backlight is handled when a profile is set.
#[derive(Clone, Copy, Debug, PartialEq, Eq)]
pub enum BacklightMethod {
    Untouched,
    Lower,
}

impl Default for BacklightMethod {
    fn default() -> (m: Self)
        ensures
            m == BacklightMethod::Untouched,
    {
        BacklightMethod::Untouched
    }
}

#[derive(Clone, Copy, Debug, PartialEq, Eq)]
pub struct BacklightConfig {
    pub method: BacklightMethod,
    pub keyboard: Option<u8>,
    pub screen: Option<u8>,
}

impl Default for BacklightConfig {
    fn default() -> (c: Self)
        ensures
            c == (BacklightConfig { method: BacklightMethod::Untouched, keyboard: None, screen: None }),
    {
        BacklightConfig { method: BacklightMethod::Untouched, keyboard: None, screen: None }
    }
}

/// The value a missing `enabled` key of the fan table takes.
pub fn default_true() -> (b: bool)
    ensures
        b,
{
    true
}

/// The fan section: whether the fan daemon runs, and the named fan curves.
#[derive(Clone, Debug)]
pub struct FanConfig {
    pub enabled: bool,
    pub curves: Vec<(String, FanCurve)>,
}

impl Default for FanConfig {
    fn default() -> (c: Self)
        ensures
            !c.enabled,
            c.curves@.len() == 0,
    {
        FanConfig { enabled: false, curves: Vec::new() }
    }
}

#[derive(Clone, Copy, Debug, PartialEq, Eq)]
pub enum RadeonProfile {
    Auto,
    Low,
    High,
}

impl RadeonProfile {
    /// The value written to the radeon power profile file.
    pub fn as_str(self) -> (s: &'static str)
        ensures
            s@ == radeon_profile_str(self),
    {
        match self {
            RadeonProfile::Auto => "auto",
            RadeonProfile::Low => "low",
            RadeonProfile::High => "high",
        }
    }
}

pub open spec fn radeon_profile_str(p: RadeonProfile) -> Seq<char> {
    match p {
        RadeonProfile::Auto => "auto"@,
        RadeonProfile::Low => "low"@,
        RadeonProfile::High => "high"@,
    }
}

impl Default for RadeonProfile {
    fn default() -> (p: Self)
        ensures
            p == RadeonProfile::Auto,
    {
        RadeonProfile::Auto
    }
}

#[derive(Clone, Copy, Debug, PartialEq, Eq)]
pub enum RadeonDpmState {
    Battery,
    Performance,
}

pub open spec fn radeon_dpm_state_str(s: RadeonDpmState) -> Seq<char> {
    match s {
        RadeonDpmState::Battery => "battery"@,
        RadeonDpmState::Performance => "performance"@,
    }
}

impl RadeonDpmState {
    /// The value written to the radeon DPM state file.
    pub fn as_str(self) -> (s: &'static str)
        ensures
            s@ == radeon_dpm_state_str(self),
    {
        match self {
            RadeonDpmState::Battery => "battery",
            RadeonDpmState::Performance => "performance",
        }
    }
}

impl Default for RadeonDpmState {
    fn default() -> (s: Self)
        ensures
            s == RadeonDpmState::Performance,
    {
        RadeonDpmState::Performance
    }
}

#[derive(Clone, Copy, Debug, PartialEq, Eq)]
pub struct RadeonConfig {
    pub profile: RadeonProfile,
    pub dpm_state: RadeonDpmState,
    pub dpm_perf: RadeonProfile,
}

impl Default for RadeonConfig {
    fn default() -> (c: Self)
        ensures
            c == (RadeonConfig {
                profile: RadeonProfile::Auto,
                dpm_state: RadeonDpmState::Performance,
                dpm_perf: RadeonProfile::Auto,
            }),
    {
        RadeonConfig {
            profile: RadeonProfile::Auto,
            dpm_state: RadeonDpmState::Performance,
            dpm_perf: RadeonProfile::Auto,
        }
    }
}

#[derive(Clone, Copy, Debug, PartialEq, Eq)]
pub struct DiskConfig {
    pub apm_level: u8,
    pub autosuspend_delay: u32,
}

impl Default for DiskConfig {
    fn default() -> (c: Self)
        ensures
            c.apm_level == 0,
            c.autosuspend_delay == 0,
    {
        DiskConfig { apm_level: 0, autosuspend_delay: 0 }
    }
}

/// SCSI / SATA link power management policies.
#[derive(Clone, Copy, Debug, PartialEq, Eq)]
pub enum ScsiPolicy {
    Max,
    Medium,
    MediumWithDipm,
    Minimum,
}

pub open spec fn scsi_policy_str(p: ScsiPolicy) -> Seq<char> {
    match p {
        ScsiPolicy::Max => "max_power"@,
        ScsiPolicy::Medium => "medium_power"@,
        ScsiPolicy::MediumWithDipm => "med_power_with_dipm"@,
        ScsiPolicy::Minimum => "min_power"@,
    }
}

impl ScsiPolicy {
    /// The policy name written to sysfs.
    pub fn as_str(self) -> (s: &'static str)
        ensures
            s@ == scsi_policy_str(self),
    {
        match self {
            ScsiPolicy::Max => "max_power",
            ScsiPolicy::Medium => "medium_power",
            ScsiPolicy::MediumWithDipm => "med_power_with_dipm",
            ScsiPolicy::Minimum => "min_power",
        }
    }

    pub fn default_set() -> (s: [ScsiPolicy; 2])
        ensures
            s@ == seq![ScsiPolicy::MediumWithDipm, ScsiPolicy::Medium],
    {
        [ScsiPolicy::MediumWithDipm, ScsiPolicy::Medium]
    }
}

#[derive(Clone, Copy, Debug, PartialEq, Eq)]
pub struct PStateConfig {
    pub min: u8,
    pub max: u8,
    pub turbo: bool,
}

impl Default for PStateConfig {
    fn default() -> (c: Self)
        ensures
            c == (PStateConfig { min: 0, max: 0, turbo: false }),
    {
        PStateConfig { min: 0, max: 0, turbo: false }
    }
}

/// The pstate values once clamped: both at most 100, and the maximum at least the minimum.
pub open spec fn clamped_pstate(p: PStateConfig) -> PStateConfig {
    let min = if p.min < 100 { p.min } else { 100u8 };
    let max = if p.max < 100 { p.max } else { 100u8 };
    PStateConfig { min, max: if min > max { min } else { max }, turbo: p.turbo }
}

impl PStateConfig {
    /// Clamps the parameters to the ranges the kernel accepts.
    pub fn clamp(&mut self)
        ensures
            *final(self) == clamped_pstate(*old(self)),
            final(self).min <= final(self).max <= 100,
    {
        if self.min > 100 {
            self.min = 100;
        }
        if self.max > 100 {
            self.max = 100;
        }
        if self.min > self.max {
            self.max = self.min;
        }
    }
}

/// The settings of one power profile; a missing setting is left as it is.
#[derive(Clone, Copy, Debug, PartialEq, Eq)]
pub struct ProfileConfig {
    pub backlight: Option<BacklightConfig>,
    pub disk: Option<DiskConfig>,
    pub laptop_mode: Option<u8>,
    pub max_lost_work: Option<u32>,
    pub pci_runtime_pm: Option<bool>,
    pub pstate: Option<PStateConfig>,
    pub radeon: Option<RadeonConfig>,
    pub scsi_host_link_time_pm_policy: Option<[ScsiPolicy; 2]>,
}

impl Default for ProfileConfig {
    fn default() -> (c: Self)
        ensures
            c == (ProfileConfig {
                backlight: None,
                disk: None,
                laptop_mode: None,
                max_lost_work: None,
                pci_runtime_pm: None,
                pstate: None,
                radeon: None,
                scsi_host_link_time_pm_policy: None,
            }),
    {
        ProfileConfig {
            backlight: None,
            disk: None,
            laptop_mode: None,
            max_lost_work: None,
            pci_runtime_pm: None,
            pstate: None,
            radeon: None,
            scsi_host_link_time_pm_policy: None,
        }
    }
}

/// `a`, or `b` when `a` is missing.
pub open spec fn or_else<T>(a: Option<T>, b: Option<T>) -> Option<T> {
    if a is Some {
        a
    } else {
        b
    }
}

/// A profile updated with another: each setting it has is kept, and each one it lacks is
/// taken from `other`. The SCSI policies are not taken over.
pub open spec fn updated_profile(p: ProfileConfig, other: ProfileConfig) -> ProfileConfig {
    ProfileConfig {
        backlight: or_else(p.backlight, other.backlight),
        disk: or_else(p.disk, other.disk),
        laptop_mode: or_else(p.laptop_mode, other.laptop_mode),
        max_lost_work: or_else(p.max_lost_work, other.max_lost_work),
        pci_runtime_pm: or_else(p.pci_runtime_pm, other.pci_runtime_pm),
        pstate: or_else(p.pstate, other.pstate),
        radeon: or_else(p.radeon, other.radeon),
        scsi_host_link_time_pm_policy: p.scsi_host_link_time_pm_policy,
    }
}

/// A profile with its parameters clamped: pstate values as `clamped_pstate` gives them,
/// and at most 3 for the lost work.
pub open spec fn clamped_profile(p: ProfileConfig) -> ProfileConfig {
    ProfileConfig {
        pstate: match p.pstate {
            Some(ps) => Some(clamped_pstate(ps)),
            None => None,
        },
        max_lost_work: match p.max_lost_work {
            Some(m) => Some(if m < 3 { m } else { 3u32 }),
            None => None,
        },
        ..p
    }
}

fn update_option<T: Copy>(from: Option<T>, with: Option<T>) -> (r: Option<T>)
    ensures
        r == or_else(from, with),
{
    match from {
        Some(v) => Some(v),
        None => with,
    }
}

impl ProfileConfig {
    pub fn update_with(&mut self, other: &Self)
        ensures
            *final(self) == updated_profile(*old(self), *other),
            old(self).backlight is Some ==> final(self).backlight == old(self).backlight,
            old(self).backlight is None ==> final(self).backlight == other.backlight,
            old(self).disk is Some ==> final(self).disk == old(self).disk,
            old(self).disk is None ==> final(self).disk == other.disk,
            old(self).laptop_mode is Some ==> final(self).laptop_mode == old(self).laptop_mode,
            old(self).laptop_mode is None ==> final(self).laptop_mode == other.laptop_mode,
            old(self).max_lost_work is Some ==> final(self).max_lost_work == old(self).max_lost_work,
            old(self).max_lost_work is None ==> final(self).max_lost_work == other.max_lost_work,
            old(self).pci_runtime_pm is Some ==> final(self).pci_runtime_pm == old(self).pci_runtime_pm,
            old(self).pci_runtime_pm is None ==> final(self).pci_runtime_pm == other.pci_runtime_pm,
            old(self).pstate is Some ==> final(self).pstate == old(self).pstate,
            old(self).pstate is None ==> final(self).pstate == other.pstate,
            old(self).radeon is Some ==> final(self).radeon == old(self).radeon,
            old(self).radeon is None ==> final(self).radeon == other.radeon,
            final(self).scsi_host_link_time_pm_policy == old(self).scsi_host_link_time_pm_policy,
    {
        self.backlight = update_option(self.backlight, other.backlight);
        self.disk = update_option(self.disk, other.disk);
        self.laptop_mode = update_option(self.laptop_mode, other.laptop_mode);
        self.max_lost_work = update_option(self.max_lost_work, other.max_lost_work);
        self.pci_runtime_pm = update_option(self.pci_runtime_pm, other.pci_runtime_pm);
        self.pstate = update_option(self.pstate, other.pstate);
        self.radeon = update_option(self.radeon, other.radeon);
    }

    /// Clamps the parameters to the ranges the kernel accepts.
    pub fn clamp(&mut self)
        ensures
            *final(self) == clamped_profile(*old(self)),
    {
        if let Some(mut pstate) = self.pstate {
            pstate.clamp();
            self.pstate = Some(pstate);
        }
        if let Some(mlw) = self.max_lost_work {
            self.max_lost_work = Some(if mlw < 3 {
                mlw
            } else {
                3
            });
        }
    }
}

/// Updating a profile never changes a setting it already has, and takes each one it
/// lacks from the other profile; its SCSI link policies stay its own.
pub proof fn lemma_update_keeps_own_settings(p: ProfileConfig, other: ProfileConfig)
    ensures
        p.backlight is Some ==> updated_profile(p, other).backlight == p.backlight,
        p.backlight is None ==> updated_profile(p, other).backlight == other.backlight,
        p.disk is Some ==> updated_profile(p, other).disk == p.disk,
        p.disk is None ==> updated_profile(p, other).disk == other.disk,
        p.laptop_mode is Some ==> updated_profile(p, other).laptop_mode == p.laptop_mode,
        p.laptop_mode is None ==> updated_profile(p, other).laptop_mode == other.laptop_mode,
        p.max_lost_work is Some ==> updated_profile(p, other).max_lost_work == p.max_lost_work,
        p.max_lost_work is None ==> updated_profile(p, other).max_lost_work == other.max_lost_work,
        p.pci_runtime_pm is Some ==> updated_profile(p, other).pci_runtime_pm == p.pci_runtime_pm,
        p.pci_runtime_pm is None ==> updated_profile(p, other).pci_runtime_pm == other.pci_runtime_pm,
        p.pstate is Some ==> updated_profile(p, other).pstate == p.pstate,
        p.pstate is None ==> updated_profile(p, other).pstate == other.pstate,
        p.radeon is Some ==> updated_profile(p, other).radeon == p.radeon,
        p.radeon is None ==> updated_profile(p, other).radeon == other.radeon,
        updated_profile(p, other).scsi_host_link_time_pm_policy == p.scsi_host_link_time_pm_policy,
{
}

/// `q` has every setting that `p` has, with the same value.
pub open spec fn keeps_settings(p: ProfileConfig, q: ProfileConfig) -> bool {
    &&& (p.backlight is Some ==> q.backlight == p.backlight)
    &&& (p.disk is Some ==> q.disk == p.disk)
    &&& (p.laptop_mode is Some ==> q.laptop_mode == p.laptop_mode)
    &&& (p.max_lost_work is Some ==> q.max_lost_work == p.max_lost_work)
    &&& (p.pci_runtime_pm is Some ==> q.pci_runtime_pm == p.pci_runtime_pm)
    &&& (p.pstate is Some ==> q.pstate == p.pstate)
    &&& (p.radeon is Some ==> q.radeon == p.radeon)
}

/// Merging in another configuration: a fan curve the other names replaces this one's of
/// that name, a curve it does not name stays as it is; a profile of either is in the
/// result, one this configuration has keeps every setting it had, and one only the
/// other has is taken over as it is.
pub proof fn lemma_merge_configs(
    mine_curves: Seq<(String, FanCurve)>,
    other_curves: Seq<(String, FanCurve)>,
    mine: Seq<(String, ProfileConfig)>,
    other: Seq<(String, ProfileConfig)>,
    k: Seq<char>,
)
    ensures
        lookup(other_curves, k) matches Some(c) ==> updated_curves(mine_curves, other_curves, k) == Some(
            c.points@,
        ),
        lookup(other_curves, k) is None ==> updated_curves(mine_curves, other_curves, k) == curve_points(
            lookup(mine_curves, k),
        ),
        (updated_profiles(mine, other, k) is Some) <==> (lookup(mine, k) is Some || lookup(other, k) is Some),
        lookup(mine, k) matches Some(p) ==> (updated_profiles(mine, other, k) matches Some(q) && keeps_settings(p, q)),
        lookup(mine, k) is None ==> updated_profiles(mine, other, k) == lookup(other, k),
        lookup(mine, k) matches Some(p) ==> (lookup(other, k) is None ==> updated_profiles(mine, other, k) == Some(p)),
{
}

/// Updating a profile keeps what it has: updating it with itself changes nothing, and
/// updating twice with the same profile is updating once.
pub proof fn lemma_update_with_idempotent(p: ProfileConfig, other: ProfileConfig)
    ensures
        updated_profile(p, p) == p,
        updated_profile(updated_profile(p, other), other) == updated_profile(p, other),
{
}

/// Clamping twice is clamping once, and a clamped profile has pstate values of at most 100
/// with the minimum not above the maximum, and at most 3 for the lost work.
pub proof fn lemma_clamp_idempotent(p: ProfileConfig)
    ensures
        clamped_profile(clamped_profile(p)) == clamped_profile(p),
        clamped_profile(p).pstate matches Some(ps) ==> ps.min <= ps.max <= 100,
        clamped_profile(p).max_lost_work matches Some(m) ==> m <= 3,
{
}

/// The whole configuration.
#[derive(Clone, Debug)]
pub struct Config {
    pub fans: FanConfig,
    pub profiles: Vec<(String, ProfileConfig)>,
}

/// The fan curves once updated with `other`'s: each curve of `other` replaces the one of
/// the same name.
pub open spec fn updated_curves(
    mine: Seq<(String, FanCurve)>,
    other: Seq<(String, FanCurve)>,
    k: Seq<char>,
) -> Option<Seq<FanPoint>> {
    match lookup(other, k) {
        Some(c) => Some(c.points@),
        None => match lookup(mine, k) {
            Some(c) => Some(c.points@),
            None => None,
        },
    }
}

/// The profiles once updated with `other`'s: a profile of both is updated with the other
/// one, a profile only `other` has is added.
pub open spec fn updated_profiles(
    mine: Seq<(String, ProfileConfig)>,
    other: Seq<(String, ProfileConfig)>,
    k: Seq<char>,
) -> Option<ProfileConfig> {
    match (lookup(mine, k), lookup(other, k)) {
        (Some(p), Some(o)) => Some(updated_profile(p, o)),
        (Some(p), None) => Some(p),
        (None, Some(o)) => Some(o),
        (None, None) => None,
    }
}

pub open spec fn curve_points(c: Option<FanCurve>) -> Option<Seq<FanPoint>> {
    match c {
        Some(c) => Some(c.points@),
        None => None,
    }
}

/// A copy of a fan curve.
pub fn copy_curve(c: &FanCurve) -> (r: FanCurve)
    ensures
        r.points@ == c.points@,
{
    let mut points: Vec<FanPoint> = Vec::new();
    let mut i: usize = 0;
    while i < c.points.len()
        invariant
            i <= c.points@.len(),
            points@ == c.points@.subrange(0, i as int),
        decreases c.points@.len() - i,
    {
        points.push(c.points[i]);
        i = i + 1;
        assert(points@ =~= c.points@.subrange(0, i as int));
    }
    assert(c.points@.subrange(0, i as int) =~= c.points@);
    FanCurve { points }
}


/// A point read from a configuration file, where temperatures are in degrees and duties
/// in percent, once scaled to hundredths.
pub open spec fn scaled_point(p: FanPoint) -> FanPoint {
    FanPoint { temp: (p.temp * 100) as i16, duty: (p.duty * 100) as u16 }
}

/// Scaling the point to hundredths stays within its types.
pub open spec fn point_scalable(p: FanPoint) -> bool {
    i16::MIN <= p.temp * 100 <= i16::MAX && p.duty * 100 <= u16::MAX
}

pub open spec fn curves_scalable(curves: Seq<(String, FanCurve)>) -> bool {
    forall|i: int, j: int|
        0 <= i < curves.len() && 0 <= j < curves[i].1.points@.len() ==> point_scalable(
            #[trigger] curves[i].1.points@[j],
        )
}

fn scale_curve(c: &FanCurve) -> (r: FanCurve)
    requires
        forall|j: int| 0 <= j < c.points@.len() ==> point_scalable(#[trigger] c.points@[j]),
    ensures
        r.points@ == c.points@.map_values(|p: FanPoint| scaled_point(p)),
{
    let mut points: Vec<FanPoint> = Vec::new();
    let mut i: usize = 0;
    while i < c.points.len()
        invariant
            i <= c.points@.len(),
            forall|j: int| 0 <= j < c.points@.len() ==> point_scalable(#[trigger] c.points@[j]),
            points@ == c.points@.subrange(0, i as int).map_values(|p: FanPoint| scaled_point(p)),
        decreases c.points@.len() - i,
    {
        let p = c.points[i];
        assert(point_scalable(c.points@[i as int]));
        points.push(FanPoint { temp: p.temp * 100, duty: p.duty * 100 });
        i = i + 1;
        assert(points@ =~= c.points@.subrange(0, i as int).map_values(|p: FanPoint| scaled_point(p)));
    }
    assert(c.points@.subrange(0, i as int) =~= c.points@);
    FanCurve { points }
}

impl Config {
    /// Checks that scaling the curve points to hundredths stays within their types.
    pub fn curves_scalable(&self) -> (b: bool)
        ensures
            b == curves_scalable(self.fans.curves@),
    {
        let mut i: usize = 0;
        while i < self.fans.curves.len()
            invariant
                i <= self.fans.curves@.len(),
                forall|a: int, j: int|
                    0 <= a < i && 0 <= j < self.fans.curves@[a].1.points@.len() ==> point_scalable(
                        #[trigger] self.fans.curves@[a].1.points@[j],
                    ),
            decreases self.fans.curves@.len() - i,
        {
            let pts = &self.fans.curves[i].1.points;
            let mut j: usize = 0;
            while j < pts.len()
                invariant
                    i < self.fans.curves@.len(),
                    pts@ == self.fans.curves@[i as int].1.points@,
                    j <= pts@.len(),
                    forall|m: int| 0 <= m < j ==> point_scalable(#[trigger] pts@[m]),
                decreases pts@.len() - j,
            {
                let p = pts[j];
                if !(p.temp >= -327 && p.temp <= 327 && p.duty <= 655) {
                    return false;
                }
                j = j + 1;
            }
            i = i + 1;
        }
        true
    }

    /// Brings freshly read values to the units used on Linux: curve points in hundredths
    /// of a degree and of a percent, and profile parameters clamped.
    pub fn normalize(&mut self)
        requires
            curves_scalable(old(self).fans.curves@),
        ensures
            final(self).fans.enabled == old(self).fans.enabled,
            final(self).fans.curves@.len() == old(self).fans.curves@.len(),
            forall|i: int|
                0 <= i < final(self).fans.curves@.len() ==> (#[trigger] final(self).fans.curves@[i]).0
                    == old(self).fans.curves@[i].0 && final(self).fans.curves@[i].1.points@
                    == old(self).fans.curves@[i].1.points@.map_values(|p: FanPoint| scaled_point(p)),
            final(self).profiles@.len() == old(self).profiles@.len(),
            forall|i: int|
                0 <= i < final(self).profiles@.len() ==> (#[trigger] final(self).profiles@[i]).0
                    == old(self).profiles@[i].0 && final(self).profiles@[i].1 == clamped_profile(
                    old(self).profiles@[i].1,
                ),
    {
        let ghost oc = self.fans.curves@;
        let mut curves: Vec<(String, FanCurve)> = Vec::new();
        let mut i: usize = 0;
        while i < self.fans.curves.len()
            invariant
                oc == self.fans.curves@,
                curves_scalable(oc),
                i <= oc.len(),
                curves@.len() == i,
                forall|a: int|
                    0 <= a < i ==> (#[trigger] curves@[a]).0 == oc[a].0 && curves@[a].1.points@
                        == oc[a].1.points@.map_values(|p: FanPoint| scaled_point(p)),
            decreases oc.len() - i,
        {
            assert forall|j: int| 0 <= j < oc[i as int].1.points@.len() implies point_scalable(
                #[trigger] oc[i as int].1.points@[j],
            ) by {}
            let c = scale_curve(&self.fans.curves[i].1);
            curves.push((self.fans.curves[i].0.clone(), c));
            i = i + 1;
        }
        self.fans.curves = curves;
        let ghost op = self.profiles@;
        let mut profiles: Vec<(String, ProfileConfig)> = Vec::new();
        let mut j: usize = 0;
        while j < self.profiles.len()
            invariant
                op == self.profiles@,
                j <= op.len(),
                profiles@.len() == j,
                forall|a: int|
                    0 <= a < j ==> (#[trigger] profiles@[a]).0 == op[a].0 && profiles@[a].1
                        == clamped_profile(op[a].1),
            decreases op.len() - j,
        {
            let mut prof = self.profiles[j].1;
            prof.clamp();
            profiles.push((self.profiles[j].0.clone(), prof));
            j = j + 1;
        }
        self.profiles = profiles;
    }

    /// The names the default configuration must hold: the three profiles and the standard
    /// fan curve.
    pub fn has_required_entries(&self) -> (b: bool)
        ensures
            b == (lookup(self.profiles@, "balanced"@) is Some && lookup(self.profiles@, "battery"@) is Some
                && lookup(self.profiles@, "performance"@) is Some && lookup(
                self.fans.curves@,
                "standard"@,
            ) is Some),
    {
        let balanced = crate::text::string_of(&crate::text::chars_of("balanced"));
        let battery = crate::text::string_of(&crate::text::chars_of("battery"));
        let performance = crate::text::string_of(&crate::text::chars_of("performance"));
        let standard = crate::text::string_of(&crate::text::chars_of("standard"));
        find_key(&self.profiles, &balanced).is_some() && find_key(&self.profiles, &battery).is_some()
            && find_key(&self.profiles, &performance).is_some() && find_key(
            &self.fans.curves,
            &standard,
        ).is_some()
    }

    pub fn update_with(&mut self, other: &Self)
        requires
            keys_unique(old(self).fans.curves@),
            keys_unique(old(self).profiles@),
            keys_unique(other.fans.curves@),
            keys_unique(other.profiles@),
        ensures
            keys_unique(final(self).fans.curves@),
            keys_unique(final(self).profiles@),
            final(self).fans.enabled == old(self).fans.enabled,
            forall|k: Seq<char>|
                curve_points(#[trigger] lookup(final(self).fans.curves@, k)) == updated_curves(
                    old(self).fans.curves@,
                    other.fans.curves@,
                    k,
                ),
            forall|k: Seq<char>|
                #[trigger] lookup(final(self).profiles@, k) == updated_profiles(
                    old(self).profiles@,
                    other.profiles@,
                    k,
                ),
    {
        let ghost old_curves = self.fans.curves@;
        let ghost old_profiles = self.profiles@;
        let ghost oc = other.fans.curves@;
        let ghost op = other.profiles@;
        let mut i: usize = 0;
        while i < other.fans.curves.len()
            invariant
                i <= oc.len(),
                oc == other.fans.curves@,
                keys_unique(oc),
                keys_unique(self.fans.curves@),
                self.fans.enabled == old(self).fans.enabled,
                self.profiles@ == old_profiles,
                forall|k: Seq<char>|
                    curve_points(#[trigger] lookup(self.fans.curves@, k)) == updated_curves(
                        old_curves,
                        oc.take(i as int),
                        k,
                    ),
            decreases oc.len() - i,
        {
            let name = other.fans.curves[i].0.clone();
            let curve = copy_curve(&other.fans.curves[i].1);
            let ghost before = self.fans.curves@;
            proof {
                lemma_lookup_push_any(oc.take(i as int), oc[i as int]);
                assert(oc.take(i + 1) =~= oc.take(i as int).push(oc[i as int]));
                crate::entries::lemma_lookup_index(oc.take(i as int), name@);
                assert forall|j: int| 0 <= j < oc.take(i as int).len() implies oc.take(i as int)[j].0@
                    != name@ by {
                    assert(oc.take(i as int)[j] == oc[j]);
                }
            }
            match find_key(&self.fans.curves, &name) {
                Some(idx) => {
                    let ghost old_entry = self.fans.curves@[idx as int];
                    self.fans.curves.set(idx, (name, curve));
                    assert(self.fans.curves@ == before.update(idx as int, (name, curve)));
                    proof {
                        assert forall|k: Seq<char>| true implies lookup(self.fans.curves@, k) == (if k
                            == before[idx as int].0@ {
                            Some(curve)
                        } else {
                            lookup(before, k)
                        }) by {
                            lemma_lookup_set(before, idx as int, name, curve, k);
                        }
                        lemma_lookup_set(before, idx as int, name, curve, name@);
                    }
                },
                None => {
                    self.fans.curves.push((name, curve));
                    proof {
                        assert forall|k: Seq<char>| true implies lookup(self.fans.curves@, k) == (if k
                            == name@ {
                            Some(curve)
                        } else {
                            lookup(before, k)
                        }) by {
                            lemma_lookup_push(before, name, curve, k);
                        }
                        lemma_lookup_push(before, name, curve, name@);
                    }
                },
            }
            i = i + 1;
        }
        assert(oc.take(i as int) =~= oc);
        let mut j: usize = 0;
        while j < other.profiles.len()
            invariant
                j <= op.len(),
                op == other.profiles@,
                keys_unique(op),
                keys_unique(self.profiles@),
                keys_unique(self.fans.curves@),
                self.fans.enabled == old(self).fans.enabled,
                forall|k: Seq<char>|
                    curve_points(#[trigger] lookup(self.fans.curves@, k)) == updated_curves(
                        old_curves,
                        oc,
                        k,
                    ),
                forall|k: Seq<char>|
                    #[trigger] lookup(self.profiles@, k) == updated_profiles(
                        old_profiles,
                        op.take(j as int),
                        k,
                    ),
            decreases op.len() - j,
        {
            let name = other.profiles[j].0.clone();
            let prof = other.profiles[j].1;
            let ghost before = self.profiles@;
            proof {
                lemma_lookup_push_any(op.take(j as int), op[j as int]);
                assert(op.take(j + 1) =~= op.take(j as int).push(op[j as int]));
                crate::entries::lemma_lookup_index(op.take(j as int), name@);
                assert forall|m: int| 0 <= m < op.take(j as int).len() implies op.take(j as int)[m].0@
                    != name@ by {
                    assert(op.take(j as int)[m] == op[m]);
                }
            }
            match find_key(&self.profiles, &name) {
                Some(idx) => {
                    let mut current = self.profiles[idx].1;
                    current.update_with(&prof);
                    self.profiles.set(idx, (name, current));
                    assert(self.profiles@ == before.update(idx as int, (name, current)));
                    proof {
                        assert forall|k: Seq<char>| true implies lookup(self.profiles@, k) == (if k
                            == before[idx as int].0@ {
                            Some(current)
                        } else {
                            lookup(before, k)
                        }) by {
                            lemma_lookup_set(before, idx as int, name, current, k);
                        }
                        lemma_lookup_set(before, idx as int, name, current, name@);
                    }
                },
                None => {
                    self.profiles.push((name, prof));
                    proof {
                        assert forall|k: Seq<char>| true implies lookup(self.profiles@, k) == (if k
                            == name@ {
                            Some(prof)
                        } else {
                            lookup(before, k)
                        }) by {
                            lemma_lookup_push(before, name, prof, k);
                        }
                        lemma_lookup_push(before, name, prof, name@);
                    }
                },
            }
            j = j + 1;
        }
        assert(op.take(j as int) =~= op);
    }
}

proof fn lemma_lookup_push_one<V>(e: Seq<(String, V)>, x: (String, V), k: Seq<char>)
    ensures
        lookup(e.push(x), k) == match lookup(e, k) {
            Some(v) => Some(v),
            None => if x.0@ == k {
                Some(x.1)
            } else {
                None
            },
        },
    decreases e.len(),
{
    if e.len() > 0 {
        lemma_lookup_push_one(e.drop_first(), x, k);
        assert(e.push(x).drop_first() =~= e.drop_first().push(x));
        assert(e.push(x)[0] == e[0]);
    } else {
        assert(e.push(x).drop_first() =~= Seq::<(String, V)>::empty());
        assert(e.push(x)[0] == x);
        assert(lookup(Seq::<(String, V)>::empty(), k) is None);
    }
}

/// Looking up in a list with one more entry at the end finds the earlier entries first.
proof fn lemma_lookup_push_any<V>(e: Seq<(String, V)>, x: (String, V))
    ensures
        forall|k: Seq<char>|
            #[trigger] lookup(e.push(x), k) == match lookup(e, k) {
                Some(v) => Some(v),
                None => if x.0@ == k {
                    Some(x.1)
                } else {
                    None
                },
            },
{
    assert forall|k: Seq<char>|
        #[trigger] lookup(e.push(x), k) == match lookup(e, k) {
            Some(v) => Some(v),
            None => if x.0@ == k {
                Some(x.1)
            } else {
                None
            },
        } by {
        lemma_lookup_push_one(e, x, k);
    }
}

} // verus!
