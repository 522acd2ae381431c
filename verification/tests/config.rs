use system76_power::config::backlight::ConfigBacklight;
use system76_power::config::defaults::ConfigDefaults;
use system76_power::config::fans::ConfigFans;
use system76_power::config::pci::ConfigPci;
use system76_power::config::profile::{Profile, Profiles};
use system76_power::config::pstate::ConfigPState;
use system76_power::config::radeon::AmdSettings;
use system76_power::config::state::ActiveState;
use system76_power::config::thresholds::ConfigThresholds;
use system76_power::fan::FanCurve;

fn text(out: Vec<u8>) -> String {
    String::from_utf8(out).unwrap()
}

#[test]
fn backlight_toml() {
    let mut out = Vec::new();
    ConfigBacklight::battery().serialize_toml(&mut out);
    assert_eq!(text(out), "backlight = { keyboard = 0, screen = 10 }\n");
    assert_eq!(ConfigBacklight::balanced(), ConfigBacklight { keyboard: 50, screen: 40 });
    assert_eq!(ConfigBacklight::performance(), ConfigBacklight { keyboard: 100, screen: 100 });
}

#[test]
fn pstate_toml() {
    let mut out = b"x\n".to_vec();
    ConfigPState::battery().serialize_toml(&mut out);
    assert_eq!(text(out), "x\npstate_min = 0\npstate_max = 50\npstate_turbo = false\n");
    assert_eq!(ConfigPState::new(1, 2, true), ConfigPState { min: 1, max: 2, turbo: true });
    assert_eq!(ConfigPState::performance(), ConfigPState { min: 50, max: 100, turbo: true });
}

#[test]
fn pci_and_amd_settings() {
    assert!(ConfigPci::battery().runtime_pm);
    assert!(ConfigPci::balanced().runtime_pm);
    assert!(!ConfigPci::performance().runtime_pm);
    let b = AmdSettings::battery();
    assert_eq!((b.profile, b.dpm_state, b.dpm_perf), ("low", "battery", "low"));
    let b = AmdSettings::balanced();
    assert_eq!((b.profile, b.dpm_state, b.dpm_perf), ("auto", "performance", "auto"));
    let p = AmdSettings::performance();
    assert_eq!((p.profile, p.dpm_state, p.dpm_perf), ("high", "performance", "auto"));
}

#[test]
fn thresholds_toml() {
    let mut out = Vec::new();
    ConfigThresholds::default().serialize_toml(&mut out);
    assert_eq!(
        text(out),
        "# [threshold]\n# Defines what percentage of battery is required to set the profile to 'battery'.\n# critical = 25\n\n# Defines what percentage of battery is required to revert the critical change.\n# normal = 50\n\n"
    );
    let mut out = Vec::new();
    ConfigThresholds { critical: 20, normal: 50 }.serialize_toml(&mut out);
    assert_eq!(
        text(out),
        "[threshold]\n# Defines what percentage of battery is required to set the profile to 'battery'.\ncritical = 20\n\n# Defines what percentage of battery is required to revert the critical change.\n# normal = 50\n\n"
    );
}

#[test]
fn defaults_toml() {
    let mut out = Vec::new();
    ConfigDefaults::default().serialize_toml(&mut out);
    assert_eq!(
        text(out),
        "# The default profile that will be set on connecting to AC.\n# ac = 'performance'\n\n# The default profile that will be set on disconnecting from AC.\n# battery = 'battery'\n\n# Uncomment to enable extra untested power-saving features\n# experimental = true\n\n"
    );
    let mut out = Vec::new();
    ConfigDefaults { ac: "balanced".to_string(), battery: "battery".to_string(), experimental: true }
        .serialize_toml(&mut out);
    assert_eq!(
        text(out),
        "# The default profile that will be set on connecting to AC.\nac = 'balanced'\n\n# The default profile that will be set on disconnecting from AC.\n# battery = 'battery'\n\n# Uncomment to enable extra untested power-saving features\nexperimental = true\n\n"
    );
}

#[test]
fn active_state_file() {
    let s = ActiveState::new(None);
    assert_eq!(s.fan_curve, "standard");
    assert_eq!(s.power_profile, "balanced");
    let kept = ActiveState::new(Some(ActiveState {
        fan_curve: "quiet".to_string(),
        power_profile: "battery".to_string(),
    }));
    assert_eq!(kept.power_profile, "battery");
    assert_eq!(
        text(kept.serialize()),
        "# This config is automatically generated and maintained by system76-power.\n# Any changes to the formatting of this file will be lost when the daemon\n# overwites this file on a profile change.\n\n# The power profile to set when starting the daemon. The default is 'balanced'.\npower_profile = 'battery'\n\n# The fan curve profile to set when starting the daemon. The default is 'standard'.\nfan_curve = 'quiet'\n"
    );
}

#[test]
fn profiles_default_toml_is_commented() {
    let mut out = Vec::new();
    Profiles::default().serialize_toml(&mut out);
    let t = text(out);
    assert!(t.starts_with(
        "# [profiles.battery]\n# Set the backlight brightness for each keyboard.\n#\n# backlight_keyboard = 0\n\n# Set the backlight brightness for each screen.\n#\n# backlight_screen = 10\n"
    ));
    assert!(t.contains("#\n# graphics = 'low'\n\n# [profiles.balanced]\n# backlight_keyboard = 50\n# backlight_screen = 40\n# laptop_mode = 0\n# max_lost_work = 15\n# pci_runtime_pm = true\n# pstate_min = 0\n# pstate_max = 100\n# pstate_turbo = true\n# graphics = 'balanced'\n\n"));
    assert!(t.ends_with("# [profiles.performance]\n# backlight_keyboard = 100\n# backlight_screen = 100\n# laptop_mode = 0\n# max_lost_work = 15\n# pci_runtime_pm = false\n# pstate_min = 50\n# pstate_max = 100\n# pstate_turbo = true\n# graphics = 'performance'\n\n"));
}

#[test]
fn profiles_changed_and_custom_toml() {
    let mut p = Profiles::default();
    p.balanced.laptop_mode = 5;
    let mut quiet = Profile::battery();
    quiet.pstate = None;
    p.insert("quiet".to_string(), quiet);
    let mut out = Vec::new();
    p.serialize_toml(&mut out);
    let t = text(out);
    assert!(t.contains("# graphics = 'low'\n\n[profiles.balanced]\nbacklight = { keyboard = 50, screen = 40 }\npstate_min = 0\npstate_max = 100\npstate_turbo = true\n\n# [profiles.performance]\n"));
    assert!(t.ends_with("[profiles.quiet]\nbacklight = { keyboard = 0, screen = 10 }\n\n"));
}

#[test]
fn profiles_lookup() {
    let mut p = Profiles::default();
    let mut quiet = Profile::battery();
    quiet.max_lost_work = 30;
    p.insert("quiet".to_string(), quiet.clone());
    // inserting under the same name again replaces the profile: the name stays once
    quiet.max_lost_work = 60;
    p.insert("quiet".to_string(), quiet);
    assert_eq!(p.custom.len(), 1);
    assert_eq!(p.get("battery").laptop_mode, 2);
    assert_eq!(p.get("performance").pci, Some(ConfigPci { runtime_pm: false }));
    assert_eq!(p.get("quiet").max_lost_work, 60);
    // an unknown profile falls back to balanced
    assert_eq!(p.get("missing").graphics.as_deref(), Some("balanced"));
    assert_eq!(p.get_profiles(), vec!["battery", "balanced", "performance", "quiet"]);
}

#[test]
fn profiles_repair_fills_missing() {
    let mut p = Profiles::default();
    p.battery = Profile {
        backlight: None,
        laptop_mode: 0,
        max_lost_work: 30,
        pci: None,
        pstate: Some(ConfigPState::new(10, 20, false)),
        graphics: None,
    };
    p.repair();
    assert_eq!(p.battery.backlight, Some(ConfigBacklight::battery()));
    assert_eq!(p.battery.laptop_mode, 2);
    assert_eq!(p.battery.max_lost_work, 30);
    assert_eq!(p.battery.pstate, Some(ConfigPState::new(10, 20, false)));
    assert_eq!(p.battery.graphics.as_deref(), Some("low"));
    let once = p.clone();
    p.repair();
    assert!(p.battery.same_as(&once.battery));
    assert!(p.balanced.same_as(&Profile::balanced()));
}

#[test]
fn fans_toml_and_lookup() {
    let mut out = Vec::new();
    let d = ConfigFans::default();
    d.serialize_toml(&mut out);
    let t = text(out);
    assert!(t.starts_with("# Configurations for available fan curve profiles.\n#\n# A curve is defined as a collection of points, each point containing a:\n#   - `temp`: System temperature, in hundredths of a degree.\n#   - `duty`: Fan speed, in hundredths of a percent.\n# [fan_curves]\n# The default fan curve.\n# standard = [ { temp = 4499, duty = 0 },\n#              { temp = 4500, duty = 3000 },\n"));
    assert!(t.ends_with("#              { temp = 8800, duty = 10000 } ]\n\n"));

    let fans = ConfigFans {
        standard: FanCurve::default().append(1000, 2000).append(-500, 3000),
        custom: vec![("quiet".to_string(), FanCurve::default().append(100, 0))],
    };
    let mut out = Vec::new();
    fans.serialize_toml(&mut out);
    let t = text(out);
    assert!(t.ends_with("Fan speed, in hundredths of a percent.\n[fan_curves]\n# The default fan curve.\nstandard = [ { temp = 1000, duty = 2000 },\n             { temp = -500, duty = 3000 } ]\n\nquiet = [ { temp = 100, duty = 0 } ]\n\n"));
    assert_eq!(fans.get("quiet").map(|c| c.points.len()), Some(1));
    assert_eq!(fans.get("standard").map(|c| c.points.len()), Some(2));
    assert!(fans.get("loud").is_none());
    assert_eq!(fans.get_profiles(), vec!["standard", "quiet"]);
    let mut fans = fans;
    fans.insert("quiet".to_string(), FanCurve::default().append(200, 100));
    fans.insert("loud".to_string(), FanCurve::default());
    assert_eq!(fans.get_profiles(), vec!["standard", "quiet", "loud"]);
    assert_eq!(fans.get("quiet").map(|c| c.points[0].temp), Some(200));
}
