use system76_power::ac_events::AcEvents;
use system76_power::backlight::{join, set_if_lower, Backlight};
use system76_power::charge_thresholds::{
    get_charge_profiles, get_charge_thresholds, set_charge_thresholds, ChargeThresholdError,
};
use system76_power::daemon::profiles::{
    apply_tcc_offset, balanced, battery, performance, plan, ryzen_args_for, set_ryzen_limits,
    set_ryzen_max_performance, BacklightStrategy, ModelProfile, ModelProfiles, PlatformChoice,
    PStateValues, RyzenSetting,
};
use system76_power::disks::{BlockDevice, Disks};
use system76_power::errors::{
    BacklightError, DiskPowerError, ModelError, PciDeviceError, ProfileError, ScsiHostError,
};
use system76_power::hid_backlight::{device_kind, keyboard, lightguide, parse_brightness, parse_color, HidBacklight};
use system76_power::kbd_backlight::KeyboardBacklight;
use system76_power::Profile;

#[test]
fn ac_events_follow_the_power_source() {
    let mut s = AcEvents::new();
    // plugged in: performance
    assert_eq!(s.step(false, false, false), Some(Profile::Performance));
    assert!(s.on_ac);
    assert_eq!(s.step(false, false, false), None);
    // unplugged: balanced
    assert_eq!(s.step(true, false, false), Some(Profile::Balanced));
    assert!(!s.on_ac);
    // charge under 25%: battery, once
    assert_eq!(s.step(true, true, false), Some(Profile::Battery));
    assert!(s.critical);
    assert_eq!(s.step(true, true, false), None);
    // charge back over 50%: balanced
    assert_eq!(s.step(true, false, true), Some(Profile::Balanced));
    assert!(!s.critical);
    assert_eq!(s.step(true, false, false), None);
}

#[test]
fn backlight_set_if_lower() {
    assert_eq!(set_if_lower(1000, 800, 40), (400, Some(400)));
    assert_eq!(set_if_lower(1000, 300, 40), (300, None));
    assert_eq!(set_if_lower(1000, 400, 40), (400, None));
    assert_eq!(set_if_lower(255, 255, 10), (25, Some(25)));
}

#[test]
fn backlight_paths() {
    let b = Backlight::new("intel_backlight");
    assert_eq!(b.name(), "intel_backlight");
    assert_eq!(b.path, "/sys/class/backlight/intel_backlight");
    assert_eq!(b.bl_power(), "/sys/class/backlight/intel_backlight/bl_power");
    assert_eq!(b.actual_brightness(), "/sys/class/backlight/intel_backlight/actual_brightness");
    assert_eq!(Backlight::all(&vec!["a".to_string(), "b".to_string()]).len(), 2);
    assert_eq!(join("/x", "y"), "/x/y");
}

#[test]
fn keyboard_backlights_by_name() {
    let names = vec![
        "input3::capslock".to_string(),
        "system76_acpi::kbd_backlight".to_string(),
        "tpacpi::kbd_backlight".to_string(),
    ];
    let k = KeyboardBacklight::all(&names);
    assert_eq!(k.len(), 2);
    assert_eq!(k[0].name(), "system76_acpi::kbd_backlight");
    assert_eq!(k[1].path, "/sys/class/leds/tpacpi::kbd_backlight");
    assert_eq!(KeyboardBacklight::new("x").path, "/sys/class/leds/x");
}

#[test]
fn charge_profiles_offered() {
    let p = get_charge_profiles();
    let ids: Vec<(&str, u8, u8)> = p.iter().map(|p| (p.id.as_str(), p.start, p.end)).collect();
    assert_eq!(ids, vec![("full_charge", 90, 100), ("balanced", 86, 90), ("max_lifespan", 50, 60)]);
    assert_eq!(p[2].title, "Maximum Lifespan");
}

#[test]
fn charge_thresholds_checks() {
    assert_eq!(set_charge_thresholds(false, (40, 80)).err(), Some(ChargeThresholdError::Unsupported));
    assert_eq!(set_charge_thresholds(true, (40, 101)).err(), Some(ChargeThresholdError::OutOfRange));
    assert_eq!(set_charge_thresholds(true, (80, 80)).err(), Some(ChargeThresholdError::Order));
    let w = set_charge_thresholds(true, (40, 80)).ok().unwrap();
    let pairs: Vec<(&str, &str)> = w.iter().map(|w| (w.path.as_str(), w.value.as_str())).collect();
    assert_eq!(
        pairs,
        vec![
            ("/sys/class/power_supply/BAT0/charge_control_end_threshold", "100"),
            ("/sys/class/power_supply/BAT0/charge_control_start_threshold", "40"),
            ("/sys/class/power_supply/BAT0/charge_control_end_threshold", "80"),
        ]
    );
    assert_eq!(
        ChargeThresholdError::Order.message(),
        "Charge end threshold must be strictly greater than start"
    );
    assert_eq!(get_charge_thresholds(true, "40\n", "80\n"), Ok((40, 80)));
    assert_eq!(get_charge_thresholds(false, "40\n", "80\n"), Err(ChargeThresholdError::Unsupported));
    assert_eq!(get_charge_thresholds(true, "x", "80"), Err(ChargeThresholdError::InvalidValue));
}

#[test]
fn profile_plans() {
    let b = balanced(true);
    assert_eq!(b.platform, PlatformChoice::Balanced);
    assert_eq!(b.max_lost_work, 15);
    assert_eq!(b.laptop_mode, "2");
    assert_eq!(b.radeon, ("auto", "performance", "auto"));
    assert_eq!(b.scsi_policies, ("med_power_with_dipm", "medium_power"));
    assert_eq!(b.screen_backlight, Some((BacklightStrategy::SetIfLowerThan, 40)));
    assert_eq!(b.keyboard_backlight, Some((BacklightStrategy::SetIfLowerThan, 50)));
    assert_eq!(b.ryzen, RyzenSetting::Limits(25_000, 35_000, 20_000, 85));
    assert_eq!(balanced(false).screen_backlight, None);
    let p = performance(true);
    assert_eq!(p.max_lost_work, 10);
    assert_eq!(p.screen_backlight, None);
    assert!(!p.pci_runtime_pm);
    assert_eq!(p.ryzen, RyzenSetting::MaxPerformance);
    let bat = battery(true);
    assert_eq!(bat.platform, PlatformChoice::LowPower);
    assert_eq!(bat.max_lost_work, 30);
    assert_eq!(bat.cpufreq, (Profile::Battery, 60));
    assert_eq!(
        bat.pstate,
        PStateValues { hwp_dynamic_boost: None, min_perf_pct: 0, max_perf_pct: 25, no_turbo: true }
    );
    assert_eq!(bat.keyboard_backlight, Some((BacklightStrategy::SetTo, 0)));
    assert_eq!(bat.pcie_aspm, "powersupersave");
    assert_eq!(plan(Profile::Battery, true).max_lost_work, 30);
}

#[test]
fn ryzenadj_arguments() {
    assert_eq!(
        set_ryzen_limits(12_000, 18_000, 10_000, 60),
        vec!["--stapm-limit=12000", "--fast-limit=18000", "--slow-limit=10000", "--tctl-temp=60"]
    );
    assert_eq!(set_ryzen_max_performance(), vec!["--max-performance"]);
    assert_eq!(ryzen_args_for(RyzenSetting::MaxPerformance), vec!["--max-performance"]);
}

#[test]
fn model_profiles() {
    let m = ModelProfiles::new("lemp9\n").unwrap();
    assert_eq!(m.performance, ModelProfile { pl1: Some(30), pl2: Some(50), tcc_offset: Some(2) });
    let g = ModelProfiles::new("galp5").unwrap();
    assert_eq!(g.battery.pl2, None);
    assert!(ModelProfiles::new("oryp6").is_none());
    let s = m.for_profile(Profile::Balanced).set();
    let pairs: Vec<(&str, &str)> = s.power_limits.iter().map(|w| (w.path.as_str(), w.value.as_str())).collect();
    assert_eq!(
        pairs,
        vec![
            ("/sys/class/powercap/intel-rapl:0/constraint_0_power_limit_uw", "20000000"),
            ("/sys/class/powercap/intel-rapl:0/constraint_1_power_limit_uw", "40000000"),
        ]
    );
    assert_eq!(s.tcc_offset, Some(12));
    assert_eq!(apply_tcc_offset([1, 2, 3, 4, 5, 6, 7, 8], 12), [1, 2, 3, 12, 5, 6, 7, 8]);
}

#[test]
fn hid_backlight_reports() {
    assert_eq!(device_kind(0x048d, 0x8297), Some(HidBacklight::Lightguide));
    assert_eq!(device_kind(0x048d, 0x8910), Some(HidBacklight::Keyboard));
    assert_eq!(device_kind(0x048d, 0x0001), None);
    let r = keyboard(255, 0x112233, "System76\n", "oryp6\n");
    assert_eq!(r.len(), 258);
    assert_eq!(r[0], vec![0xCC, 0x01, 0, 0x11, 0x22, 0x33]);
    assert_eq!(r[255], vec![0xCC, 0x01, 255, 0x11, 0x22, 0x33]);
    assert_eq!(r[256], vec![0xCC, 0x09, 10]);
    assert_eq!(r[257], vec![0xCC, 0x20, 0x01]);
    // colors are corrected on the bonw15
    let r = keyboard(1, 0xFFFFFF, "System76", "bonw15");
    assert_eq!(r[7], vec![0xCC, 0x01, 7, 0xFF, 0x65, 0x60]);
    assert_eq!(r[256], vec![0xCC, 0x09, 1]);
    let l = lightguide(128, 0x0A0B0C);
    assert_eq!(l, vec![vec![0xCC, 0xB0, 0, 0, 0x0A, 0x0B, 0x0C], vec![0xCC, 0xBF, 3]]);
    assert_eq!(parse_brightness("128\n"), Some(128));
    assert_eq!(parse_brightness("256"), None);
    assert_eq!(parse_color(Some("00ff80\n")), Some(0x00FF80));
    assert_eq!(parse_color(None), Some(0xFFFFFF));
    assert_eq!(parse_color(Some("red")), None);
}

#[test]
fn disks_to_manage() {
    let devices = vec![
        BlockDevice { name: "sda".to_string(), has_slaves: true, rotational: Some("1\n".to_string()) },
        BlockDevice { name: "loop0".to_string(), has_slaves: true, rotational: Some("1".to_string()) },
        BlockDevice { name: "nvme0n1".to_string(), has_slaves: true, rotational: Some("0\n".to_string()) },
        BlockDevice { name: "sdb".to_string(), has_slaves: false, rotational: Some("1".to_string()) },
        BlockDevice { name: "sdc".to_string(), has_slaves: true, rotational: None },
    ];
    let d = Disks::from_devices(&devices);
    let names: Vec<(&str, bool)> = d.0.iter().map(|d| (d.path.as_str(), d.is_rotational)).collect();
    assert_eq!(names, vec![("/dev/sda", true), ("/dev/nvme0n1", false), ("/dev/sdc", false)]);
    assert_eq!(d.set_apm_level(128), vec![vec!["-B".to_string(), "128".to_string(), "/dev/sda".to_string()]]);
    let w = d.set_autosuspend_delay(-1);
    assert_eq!(w.len(), 1);
    assert_eq!(w[0].path, "/sys/block/sda/device/power/autosuspend_delay_ms");
    assert_eq!(w[0].value, "-1");
}

#[test]
fn profile_error_messages() {
    let e = ProfileError::Backlight(BacklightError::SetBrightness("acpi_video0".to_string(), "denied".to_string()));
    assert_eq!(e.message(), "failed to set backlight profiles: failed to set backlight on acpi_video0: denied");
    let e = ProfileError::ScsiHost(ScsiHostError::LinkTimePolicy("min_power", "host0".to_string(), "busy".to_string()));
    assert_eq!(
        e.message(),
        "failed to set scsi host profiles: failed to set link time power management policy min_power on host0: busy"
    );
    let e = ProfileError::PciDevice(PciDeviceError::SetRuntimePm("0000:00:02.0".to_string(), "gone".to_string()));
    assert_eq!(e.message(), "failed to set pci device profiles: failed to set PCI device runtime PM on 0000:00:02.0: gone");
    assert_eq!(ModelError::Pl2("no".to_string()).message(), "failed to set PL2: no");
    assert_eq!(ProfileError::PState("x".to_string()).message(), "failed to set pstate profiles: x");
    assert_eq!(
        DiskPowerError::ApmLevel("/dev/sda".to_string(), 128, "missing".to_string()).message(),
        "failed to set disk APM level on \"/dev/sda\" to 128: missing"
    );
    assert_eq!(
        DiskPowerError::AutosuspendDelay("/sys/block/sda".to_string(), -1, "e".to_string()).message(),
        "failed to set disk autosuspend delay on \"/sys/block/sda\" to -1: e"
    );
    // a path is written as `Debug` writes a path
    assert_eq!(
        DiskPowerError::ApmLevel("/dev/it's".to_string(), 1, "x".to_string()).message(),
        format!("failed to set disk APM level on {:?} to 1: x", std::path::Path::new("/dev/it's"))
    );
}

#[test]
fn thresholds_read_back() {
    let w = set_charge_thresholds(true, (50, 60)).unwrap();
    assert_eq!(get_charge_thresholds(true, &w[1].value, &w[2].value), Ok((50, 60)));
    let w = set_charge_thresholds(true, (0, 100)).unwrap();
    assert_eq!(get_charge_thresholds(true, &format!("{}\n", w[1].value), &format!("{}\n", w[2].value)), Ok((0, 100)));
}

#[test]
fn backlight_paths_follow_path_push() {
    assert_eq!(Backlight::new("intel_backlight").path, "/sys/class/backlight/intel_backlight");
    assert_eq!(Backlight::new("/x").path, "/x");
    assert_eq!(KeyboardBacklight::new("/y").path, "/y");
    assert_eq!(join("/a/", "b"), "/a/b");
    assert_eq!(join("/a", "b"), "/a/b");
}
