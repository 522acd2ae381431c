use system76_power::daemon::config::{
    BacklightConfig, BacklightMethod, Config, DiskConfig, FanConfig, PStateConfig, ProfileConfig,
    RadeonConfig, RadeonDpmState, RadeonProfile, ScsiPolicy,
};
use system76_power::daemon::power::{
    profile_errors_message, profile_refresh_rate, rising_edges, system76_profile_to_upp_str,
    upp_to_system76_profile, HeldKind, PowerSource, PowerSourceAction, PowerState,
};
use system76_power::daemon::settings::{
    load_auto_switch_config, load_display_mode_config, load_refresh_rate_config,
};
use system76_power::display::{DisplayModeConfig, ModeSpec, RefreshRateConfig};
use system76_power::fan::FanCurve;

fn empty_profile() -> ProfileConfig {
    ProfileConfig::default()
}

#[test]
fn profile_update_keeps_own_settings() {
    let mut p = empty_profile();
    p.laptop_mode = Some(2);
    let mut other = empty_profile();
    other.laptop_mode = Some(5);
    other.max_lost_work = Some(15);
    other.pci_runtime_pm = Some(true);
    other.scsi_host_link_time_pm_policy = Some(ScsiPolicy::default_set());
    p.update_with(&other);
    assert_eq!(p.laptop_mode, Some(2));
    assert_eq!(p.max_lost_work, Some(15));
    assert_eq!(p.pci_runtime_pm, Some(true));
    // the link power policy is not merged
    assert_eq!(p.scsi_host_link_time_pm_policy, None);
    let once = p;
    p.update_with(&other);
    assert_eq!(p, once);
}

#[test]
fn profile_clamp() {
    let mut p = empty_profile();
    p.pstate = Some(PStateConfig { min: 150, max: 50, turbo: true });
    p.max_lost_work = Some(15);
    p.clamp();
    assert_eq!(p.pstate, Some(PStateConfig { min: 100, max: 100, turbo: true }));
    assert_eq!(p.max_lost_work, Some(3));
    let mut q = empty_profile();
    q.pstate = Some(PStateConfig { min: 30, max: 20, turbo: false });
    q.max_lost_work = Some(1);
    q.clamp();
    assert_eq!(q.pstate, Some(PStateConfig { min: 30, max: 30, turbo: false }));
    assert_eq!(q.max_lost_work, Some(1));
}

#[test]
fn config_enum_names() {
    assert_eq!(ScsiPolicy::Max.as_str(), "max_power");
    assert_eq!(ScsiPolicy::MediumWithDipm.as_str(), "med_power_with_dipm");
    assert_eq!(RadeonProfile::High.as_str(), "high");
    assert_eq!(RadeonDpmState::Battery.as_str(), "battery");
    assert_eq!(RadeonProfile::default(), RadeonProfile::Auto);
    assert_eq!(RadeonDpmState::default(), RadeonDpmState::Performance);
    let r = RadeonConfig::default();
    assert_eq!((r.profile, r.dpm_state, r.dpm_perf), (RadeonProfile::Auto, RadeonDpmState::Performance, RadeonProfile::Auto));
    assert_eq!(BacklightConfig::default().method, BacklightMethod::Untouched);
    assert_eq!(DiskConfig::default(), DiskConfig { apm_level: 0, autosuspend_delay: 0 });
}

fn config(curves: Vec<(&str, FanCurve)>, profiles: Vec<(&str, ProfileConfig)>) -> Config {
    Config {
        fans: FanConfig { enabled: true, curves: curves.into_iter().map(|(n, c)| (n.to_string(), c)).collect() },
        profiles: profiles.into_iter().map(|(n, p)| (n.to_string(), p)).collect(),
    }
}

#[test]
fn config_normalize_scales_points() {
    let mut c = config(vec![("standard", FanCurve::default().append(45, 30).append(-2, 100))], vec![]);
    assert!(c.curves_scalable());
    c.normalize();
    let p = &c.fans.curves[0].1.points;
    assert_eq!((p[0].temp, p[0].duty), (4500, 3000));
    assert_eq!((p[1].temp, p[1].duty), (-200, 10000));
    let big = config(vec![("x", FanCurve::default().append(400, 30))], vec![]);
    assert!(!big.curves_scalable());
}

#[test]
fn config_update_and_required_entries() {
    let mut lm = empty_profile();
    lm.laptop_mode = Some(2);
    let mut sys = config(
        vec![("standard", FanCurve::standard())],
        vec![("balanced", lm), ("battery", empty_profile()), ("performance", empty_profile())],
    );
    assert!(sys.has_required_entries());
    let mut user_balanced = empty_profile();
    user_balanced.laptop_mode = Some(9);
    user_balanced.max_lost_work = Some(30);
    let user = config(
        vec![("standard", FanCurve::hedt()), ("quiet", FanCurve::xeon())],
        vec![("balanced", user_balanced), ("gaming", empty_profile())],
    );
    sys.update_with(&user);
    let get = |c: &Config, n: &str| c.profiles.iter().find(|(k, _)| k == n).map(|(_, v)| *v);
    assert_eq!(get(&sys, "balanced").unwrap().laptop_mode, Some(2));
    assert_eq!(get(&sys, "balanced").unwrap().max_lost_work, Some(30));
    assert!(get(&sys, "gaming").is_some());
    let curve = |c: &Config, n: &str| c.fans.curves.iter().find(|(k, _)| k == n).map(|(_, v)| v.clone());
    assert_eq!(curve(&sys, "standard"), Some(FanCurve::hedt()));
    assert_eq!(curve(&sys, "quiet"), Some(FanCurve::xeon()));
    assert!(!config(vec![], vec![("balanced", empty_profile())]).has_required_entries());
}

#[test]
fn auto_switch_setting() {
    assert!(load_auto_switch_config(None));
    assert!(!load_auto_switch_config(Some("[auto_switch]\nenabled = false\n")));
    assert!(load_auto_switch_config(Some("  enabled=true")));
    assert!(load_auto_switch_config(Some("other = 1\n")));
    // a line without a value keeps the default
    assert!(load_auto_switch_config(Some("enabled\nenabled = false")));
}

#[test]
fn refresh_rate_settings() {
    let c = load_refresh_rate_config(None);
    assert_eq!((c.enabled, c.battery, c.balanced, c.performance), (true, 60, 60, 165));
    let c = load_refresh_rate_config(Some(
        "battery = 30\n[refresh_rate]\nenabled = false\nbattery = 48\nbalanced = x\nperformance=120\n[other]\nbalanced = 90\n",
    ));
    assert_eq!((c.enabled, c.battery, c.balanced, c.performance), (false, 48, 60, 120));
}

#[test]
fn display_mode_settings() {
    let c = load_display_mode_config(None);
    assert!(!c.enabled && c.ac_mode.is_none() && c.battery_mode.is_none());
    let c = load_display_mode_config(Some(
        "[display_modes]\nenabled = true\nac_mode = \"2560x1600@165.00+vrr\"\nac_resolution = 1x1\nbattery_resolution = \"1920x1200\"\nbattery_refresh_rate = 60\n",
    ));
    assert!(c.enabled);
    assert!(matches!(c.ac_mode, Some(ModeSpec::ModeString(ref s)) if s == "2560x1600@165.00+vrr"));
    assert!(matches!(c.battery_mode, Some(ModeSpec::ResolutionAndRate(1920, 1200, 60))));
    let c = load_display_mode_config(Some("[display_modes]\nbattery_resolution = 1920\nbattery_refresh_rate = 60\n"));
    assert!(c.battery_mode.is_none());
}

#[test]
fn upower_profile_names() {
    assert_eq!(system76_profile_to_upp_str("Battery"), "power-saver");
    assert_eq!(system76_profile_to_upp_str("Performance"), "performance");
    assert_eq!(system76_profile_to_upp_str("Custom"), "unknown");
    assert_eq!(upp_to_system76_profile("power-saver"), Some("Battery"));
    assert_eq!(upp_to_system76_profile("turbo"), None);
    for p in ["Battery", "Balanced", "Performance"] {
        assert_eq!(upp_to_system76_profile(system76_profile_to_upp_str(p)), Some(p));
    }
    assert_eq!(HeldKind::from_name("balanced"), Some(HeldKind::Balanced));
    assert_eq!(HeldKind::PowerSaver.name(), "power-saver");
}

fn state(auto: bool, display: DisplayModeConfig) -> PowerState {
    PowerState::new(auto, RefreshRateConfig::default(), display)
}

#[test]
fn set_profile_applies_once() {
    let mut s = state(true, DisplayModeConfig::default());
    let c = s.set_profile("Battery");
    assert!(c.apply);
    assert_eq!(c.refresh_rate, Some(60));
    assert_eq!(s.power_profile, "Battery");
    let c = s.set_profile("Battery");
    assert!(!c.apply);
    assert_eq!(c.refresh_rate, None);
    assert_eq!(s.set_profile("Performance").refresh_rate, Some(165));
    assert_eq!(s.set_profile("Custom").refresh_rate, None);
    assert_eq!(profile_refresh_rate(&RefreshRateConfig::default(), "Balanced"), 60);
}

#[test]
fn manual_requests_override_auto_switching() {
    let mut s = state(true, DisplayModeConfig::default());
    s.note_manual_request("Battery");
    assert!(!s.auto_switch_manual_override);
    s.initial_set = true;
    s.set_profile("Balanced");
    s.note_manual_request("Balanced");
    assert!(!s.auto_switch_manual_override);
    s.note_manual_request("Performance");
    assert!(s.auto_switch_manual_override);
    // a change of power source ends the override
    assert!(matches!(s.on_power_source(PowerSource::Battery), PowerSourceAction::ApplyProfile("Battery")));
    assert!(!s.auto_switch_manual_override);
    assert!(matches!(s.on_power_source(PowerSource::AC), PowerSourceAction::ApplyProfile("Balanced")));
    let mut off = state(false, DisplayModeConfig::default());
    assert!(matches!(off.on_power_source(PowerSource::AC), PowerSourceAction::Ignore));
}

#[test]
fn power_source_sets_display_mode() {
    let display = DisplayModeConfig {
        enabled: true,
        ac_mode: Some(ModeSpec::ResolutionAndRate(2560, 1600, 165)),
        battery_mode: None,
    };
    let mut s = state(true, display);
    assert!(matches!(
        s.on_power_source(PowerSource::AC),
        PowerSourceAction::SetDisplayMode(Some(ModeSpec::ResolutionAndRate(2560, 1600, 165)))
    ));
    assert!(matches!(s.on_power_source(PowerSource::Battery), PowerSourceAction::SetDisplayMode(None)));
}

#[test]
fn held_profiles() {
    let mut s = state(false, DisplayModeConfig::default());
    assert_eq!(s.held_profile_target(), HeldKind::Balanced);
    let a = s.hold_profile("performance", "game", "steam").unwrap();
    assert_eq!(a, 0);
    assert_eq!(s.held_profile_target(), HeldKind::Performance);
    let b = s.hold_profile("power-saver", "low", "app").unwrap();
    assert_eq!(b, 1);
    assert_eq!(s.held_profile_target(), HeldKind::PowerSaver);
    assert_eq!(s.hold_profile("turbo", "", ""), Err("unknown power profile".to_string()));
    assert!(s.release_profile(b));
    assert!(!s.release_profile(b));
    assert_eq!(s.held_profile_target(), HeldKind::Performance);
    assert!(s.release_profile(a));
    assert_eq!(s.held_profiles.len(), 0);
    assert_eq!(s.hold_profile("balanced", "", "").unwrap(), 2);
}

#[test]
fn profile_error_report() {
    assert_eq!(profile_errors_message(&vec![]), Ok(()));
    assert_eq!(
        profile_errors_message(&vec!["a".to_string(), "b".to_string()]),
        Err("Errors found when setting profile:\n    - a\n    - b".to_string())
    );
}

#[test]
fn hotplug_rising_edges() {
    assert_eq!(rising_edges([false, true, false, true], [true, true, false, false]), vec![0]);
    assert_eq!(rising_edges([false; 4], [true; 4]), vec![0, 1, 2, 3]);
    assert_eq!(rising_edges([true; 4], [true; 4]), Vec::<usize>::new());
}
