use system76_power::acpi_platform;
use system76_power::cpufreq::{governor, num_cpus, Cpu};
use system76_power::kernel_parameters::radeon::RadeonDevice;
use system76_power::kernel_parameters::snd::SoundDevice;
use system76_power::kernel_parameters::{disk_io_scheduler, laptop_mode, Dirty, KernelParameter};
use system76_power::laptop_mode::set_laptop_mode;
use system76_power::modprobe;
use system76_power::sysfs::parse_sysfs_number;
use system76_power::Profile;

#[test]
fn cpu_paths_and_writes() {
    let mut cpu = Cpu::new(0);
    assert_eq!(cpu.path, "/sys/devices/system/cpu/cpu0/cpufreq/");
    cpu.load(12);
    assert_eq!(cpu.path, "/sys/devices/system/cpu/cpu12/cpufreq/");
    assert_eq!(cpu.file("scaling_driver"), "/sys/devices/system/cpu/cpu12/cpufreq/scaling_driver");
    let w = cpu.set_frequency_maximum(2_400_000);
    assert_eq!(w.path, "/sys/devices/system/cpu/cpu12/cpufreq/scaling_max_freq");
    assert_eq!(w.value, "2400000");
    let w = cpu.set_frequency_minimum(400_000);
    assert_eq!(w.path, "/sys/devices/system/cpu/cpu12/cpufreq/scaling_min_freq");
    assert_eq!(w.value, "400000");
    let w = cpu.set_governor("powersave");
    assert_eq!(w.path, "/sys/devices/system/cpu/cpu12/cpufreq/scaling_governor");
    assert_eq!(w.value, "powersave");
    let w = cpu.set_epp("balance_power");
    assert_eq!(w.path, "/sys/devices/system/cpu/cpu12/cpufreq/energy_performance_preference");
}

#[test]
fn cpu_values() {
    assert_eq!(Cpu::frequency_maximum(Some("4700000\n")), Some(4_700_000));
    assert_eq!(Cpu::frequency_minimum(Some(" 400000 ")), Some(400_000));
    assert_eq!(Cpu::frequency_maximum(Some("fast")), None);
    assert_eq!(Cpu::frequency_maximum(None), None);
    assert_eq!(Cpu::scaling_driver(Some("amd-pstate-epp\n")).as_deref(), Some("amd-pstate-epp"));
    assert_eq!(num_cpus("0-15\n"), Some(15));
    assert_eq!(num_cpus("0"), None);
    assert_eq!(num_cpus("0-x"), None);
}

#[test]
fn governors_by_profile_and_driver() {
    assert_eq!(governor(Profile::Battery, "intel_pstate"), ("powersave", None));
    assert_eq!(governor(Profile::Battery, "amd-pstate"), ("powersave", None));
    assert_eq!(governor(Profile::Battery, "amd-pstate-epp"), ("powersave", Some("balance_power")));
    assert_eq!(governor(Profile::Battery, "acpi-cpufreq"), ("conservative", None));
    assert_eq!(governor(Profile::Balanced, "amd-pstate"), ("ondemand", None));
    assert_eq!(governor(Profile::Balanced, "amd-pstate-epp"), ("powersave", Some("balance_performance")));
    assert_eq!(governor(Profile::Balanced, "intel_pstate"), ("powersave", None));
    assert_eq!(governor(Profile::Balanced, "acpi-cpufreq"), ("schedutil", None));
    assert_eq!(governor(Profile::Performance, "amd-pstate-epp"), ("performance", Some("performance")));
    assert_eq!(governor(Profile::Performance, "intel_pstate"), ("performance", None));
}

#[test]
fn cpufreq_plan() {
    let p = system76_power::cpufreq::set(Profile::Battery, 60, Some("intel_pstate"), Some(7), Some(400_000), Some(4_000_000)).unwrap();
    assert_eq!(p.governor, "powersave");
    assert_eq!(p.epp, None);
    assert_eq!(p.limits, Some((400_000, 2_400_000)));
    assert_eq!(p.last_cpu, 7);
    // an amd-pstate driver manages the limits itself
    let p = system76_power::cpufreq::set(Profile::Performance, 150, Some("amd-pstate-epp"), Some(3), Some(1), Some(100)).unwrap();
    assert_eq!(p.limits, None);
    assert_eq!(p.epp, Some("performance"));
    assert!(system76_power::cpufreq::set(Profile::Balanced, 100, None, Some(3), Some(1), Some(100)).is_none());
    assert!(system76_power::cpufreq::set(Profile::Balanced, 100, Some("intel_pstate"), None, Some(1), Some(100)).is_none());
    // the cap is at most 100%
    let p = system76_power::cpufreq::set(Profile::Balanced, 200, Some("intel_pstate"), Some(0), Some(1), Some(100)).unwrap();
    assert_eq!(p.limits, Some((1, 100)));
}

#[test]
fn kernel_parameter_files() {
    assert_eq!(laptop_mode().path, "/proc/sys/vm/laptop_mode");
    assert_eq!(disk_io_scheduler("sda").path, "/sys/block/sda/queue/scheduler");
    let p = KernelParameter::at("/proc/sys/vm/laptop_mode");
    assert_eq!(p.get("2\n"), "2");
    assert_eq!(p.get(""), "");
    let w = p.set(&"5".chars().collect());
    assert_eq!((w.path.as_str(), w.value.as_str()), ("/proc/sys/vm/laptop_mode", "5"));
}

#[test]
fn dirty_max_lost_work() {
    let w = Dirty::default().set_max_lost_work(15);
    assert_eq!(w.len(), 2);
    assert_eq!(w[0].path, "/proc/sys/vm/dirty_expire_centisecs");
    assert_eq!(w[0].value, "1500");
    assert_eq!(w[1].path, "/proc/sys/vm/dirty_writeback_centisecs");
    assert_eq!(w[1].value, "1500");
    assert_eq!(Dirty::default().set_max_lost_work(u32::MAX)[0].value, "429496729500");
}

#[test]
fn radeon_and_sound_devices() {
    let d = RadeonDevice::new(1);
    assert_eq!(d.path, "/sys/class/drm/card1");
    assert_eq!(d.dpm_state.path, "/sys/class/drm/card1/power_dpm_state");
    assert_eq!(d.dpm_force_performance.path, "/sys/class/drm/card1/power_dpm_force_performance_level");
    assert_eq!(d.power_method.path, "/sys/class/drm/card1/power_method");
    assert_eq!(d.power_profile.path, "/sys/class/drm/card1/power_profile");
    assert!(SoundDevice::new("snd_hda_intel", false, true).is_none());
    let s = SoundDevice::new("snd_hda_intel", true, true).unwrap();
    assert_eq!(s.power_save.path, "/sys/module/snd_hda_intel/parameters/power_save");
    assert_eq!(
        s.power_save_controller.unwrap().path,
        "/sys/module/snd_hda_intel/parameters/power_save_controller"
    );
    assert!(SoundDevice::new("snd_ac97_codec", true, false).unwrap().power_save_controller.is_none());
}

#[test]
fn laptop_mode_write() {
    let w = set_laptop_mode(2);
    assert_eq!(w.path, "/proc/sys/vm/laptop_mode");
    assert_eq!(w.value, "2");
}

#[test]
fn modprobe_arguments() {
    assert_eq!(modprobe::unload("nvidia"), vec!["-r", "nvidia"]);
    assert_eq!(modprobe::load("i915", &vec!["enable_psr=1", "fastboot=1"]), vec!["i915", "enable_psr=1", "fastboot=1"]);
}

#[test]
fn modprobe_reload_steps() {
    let opts = vec!["power_save=1"];
    match modprobe::reload("snd_hda_intel") {
        modprobe::ReloadAction::Run(modprobe::ReloadStage::Unload, args) => assert_eq!(args, vec!["-r", "snd_hda_intel"]),
        other => panic!("unexpected {:?}", other),
    }
    match modprobe::reload_step(modprobe::ReloadStage::Unload, "snd_hda_intel", &opts, Ok(true)) {
        modprobe::ReloadAction::Run(modprobe::ReloadStage::Load, args) => assert_eq!(args, vec!["snd_hda_intel", "power_save=1"]),
        other => panic!("unexpected {:?}", other),
    }
    // An unsuccessful unload stops the reload: nothing is loaded.
    match modprobe::reload_step(modprobe::ReloadStage::Unload, "snd_hda_intel", &opts, Ok(false)) {
        modprobe::ReloadAction::Finish(Err(e)) => assert_eq!(e, "failed to unload snd_hda_intel"),
        other => panic!("unexpected {:?}", other),
    }
    // An error running modprobe is given back unchanged.
    match modprobe::reload_step(modprobe::ReloadStage::Unload, "snd_hda_intel", &opts, Err("no such file".to_string())) {
        modprobe::ReloadAction::Finish(Err(e)) => assert_eq!(e, "no such file"),
        other => panic!("unexpected {:?}", other),
    }
    assert!(matches!(modprobe::reload_step(modprobe::ReloadStage::Load, "snd_hda_intel", &opts, Ok(true)), modprobe::ReloadAction::Finish(Ok(()))));
    match modprobe::reload_step(modprobe::ReloadStage::Load, "snd_hda_intel", &opts, Ok(false)) {
        modprobe::ReloadAction::Finish(Err(e)) => assert_eq!(e, "failed to load snd_hda_intel"),
        other => panic!("unexpected {:?}", other),
    }
}

#[test]
fn acpi_platform_profiles() {
    let c = acpi_platform::choices("cool quiet balanced performance\n");
    assert_eq!(c, vec!["cool", "quiet", "balanced", "performance"]);
    assert_eq!(acpi_platform::battery(&c), Some(1));
    let c = acpi_platform::choices("balanced\tperformance low-power");
    assert_eq!(acpi_platform::battery(&c), Some(2));
    // without a power saving choice, the first one is the best guess
    let c = acpi_platform::choices("balanced performance");
    assert_eq!(acpi_platform::battery(&c), Some(0));
    assert_eq!(acpi_platform::battery(&acpi_platform::choices("  \n")), None);
    assert_eq!(acpi_platform::balanced(), "balanced");
    assert_eq!(acpi_platform::performance(), "performance");
}

#[test]
fn sysfs_numbers() {
    assert_eq!(parse_sysfs_number("255\n"), Some(255));
    assert_eq!(parse_sysfs_number(" +7 "), Some(7));
    assert_eq!(parse_sysfs_number("-1"), None);
    assert_eq!(parse_sysfs_number(""), None);
}
