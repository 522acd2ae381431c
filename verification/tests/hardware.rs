use system76_power::display::{
    choose_display_user, compositor_processes, create_manager, find_mode_by_string, first_pid,
    gnome_display_name, gnome_mode_lines, is_active_session, is_graphical_session, is_primary_seat,
    modes_with_resolution, parse_session_details, run_as_user_args, session_candidates,
    session_env_from_entries, sessions_of_user, sudo_display_user, vrr_candidates,
    x11_display_name, x11_mode_lines, DisplayBackend, DisplayError, DisplayServer, SessionContext,
};
use system76_power::display::{
    gnome_mode_fields, session_env_step, xrandr_mode_fields, EnvSource, SessionEnvNext,
};
use system76_power::graphics::{
    check_single_driver, find_nvidia_device, is_desktop_chassis, load_modules_for_mode,
    parse_nvidia_devid, power_control_path, power_control_value, supports_runtimepm, Graphics,
    GraphicsDeviceError, GraphicsMode, ModprobeConfig, PciInfo, SleepConfig,
};
use system76_power::runtime_switch::{SwitchEvent, SwitchNext, SwitchRuntime, SwitchStep};
use system76_power::hotplug::{
    amd_detect, display_port_mux_layout, hotplug_layout, intel_detect, HotPlugDetectError,
    HotPlugLayout, Intel, NO_PIN, PCR_BASE_ADDRESS,
};

fn s(v: &str) -> String {
    v.to_string()
}

#[test]
fn session_details() {
    let d = parse_session_details("3", "Id=3\nName=alice\nType=wayland\nState=active\nSeat=seat0\n");
    assert_eq!(d.user, "alice");
    assert!(is_graphical_session(&d) && is_active_session(&d) && is_primary_seat(&d));
    let tty = parse_session_details("c1", "Name=bob\nType=tty\nState=online\n");
    assert_eq!(tty.seat, "seat0");
    assert!(!is_graphical_session(&tty));
    assert!(!is_active_session(&tty));
}

#[test]
fn display_user_choice() {
    let list = "   2 1000 alice seat0 tty2\n  c1    0 root\n   5 1001 bob\n";
    let cands = session_candidates(list);
    assert_eq!(cands, vec![(s("2"), s("alice")), (s("5"), s("bob"))]);
    let tty = parse_session_details("2", "Name=alice\nType=tty\nState=active\n");
    let gui = parse_session_details("5", "Name=bob\nType=x11\nState=online\nSeat=seat1\n");
    // no ideal session: the first graphical one
    assert_eq!(choose_display_user(&cands, &vec![Some(tty), Some(gui)]).ok(), Some(s("bob")));
    // nothing graphical: the first candidate
    assert_eq!(choose_display_user(&cands, &vec![None, None]).ok(), Some(s("alice")));
    assert!(matches!(choose_display_user(&vec![], &vec![]), Err(DisplayError::Io(_))));
    assert_eq!(sessions_of_user(list, "bob"), vec![s("5")]);
    assert_eq!(sudo_display_user(Some("root")), None);
    assert_eq!(sudo_display_user(Some("")), None);
    assert_eq!(sudo_display_user(Some("carol")), Some(s("carol")));
}

#[test]
fn compositor_pids() {
    assert_eq!(compositor_processes()[0], "gnome-shell");
    assert_eq!(compositor_processes().len(), 11);
    assert_eq!(first_pid("1234\n5678\n"), Some(s("1234")));
    assert_eq!(first_pid(""), None);
    assert_eq!(first_pid("  \n12"), None);
}

#[test]
fn session_environment() {
    let env = session_env_from_entries(&vec![
        Some(s("DISPLAY=:0")),
        Some(s("HOME=/home/alice")),
        None,
        Some(s("WAYLAND_DISPLAY=wayland-0")),
        Some(s("NOEQUALS")),
    ]);
    assert_eq!(env, vec![(s("DISPLAY"), s(":0")), (s("WAYLAND_DISPLAY"), s("wayland-0"))]);
    let ctx = SessionContext { user: s("alice"), env_vars: env };
    assert_eq!(
        run_as_user_args(&ctx, "xrandr", &vec!["--query"]),
        vec!["-u", "alice", "env", "DISPLAY=:0", "WAYLAND_DISPLAY=wayland-0", "xrandr", "--query"]
    );
    // a Wayland display without GNOME cannot be controlled
    assert!(matches!(create_manager(&ctx, None), Err(DisplayError::UnsupportedBackend(ref w)) if w == "Wayland"));
    let gnome = SessionContext {
        user: s("alice"),
        env_vars: vec![(s("XDG_SESSION_TYPE"), s("wayland")), (s("XDG_CURRENT_DESKTOP"), s("ubuntu:GNOME"))],
    };
    assert!(matches!(create_manager(&gnome, None), Ok(DisplayBackend::Gnome)));
    let none = SessionContext { user: s("alice"), env_vars: vec![] };
    assert!(matches!(create_manager(&none, Some(DisplayServer::X11)), Ok(DisplayBackend::X11)));
    assert!(matches!(create_manager(&none, None), Err(DisplayError::SessionNotFound)));
}

#[test]
fn display_names_and_modes() {
    let gnome = "HDMI-1 disconnected\neDP-1 connected\n    2560x1600@165.002+vrr  2560x1600  165.00\n    2560x1600@60.000  2560x1600  60.00\nDP-1 connected\n    1920x1080@60.000\n";
    assert_eq!(gnome_display_name(gnome), "eDP-1");
    assert_eq!(gnome_mode_lines(gnome, "eDP-1"), vec![
        s("    2560x1600@165.002+vrr  2560x1600  165.00"),
        s("    2560x1600@60.000  2560x1600  60.00"),
    ]);
    assert_eq!(gnome_display_name("DP-1 connected\n"), "eDP-1");
    let x11 = "Screen 0: minimum 8 x 8\nLVDS-1 connected primary 1920x1080+0+0\n   1920x1080     60.00*+  40.00\n   1280x720      59.86\nHDMI-1 disconnected\n";
    assert_eq!(x11_display_name(x11), "LVDS-1");
    assert_eq!(x11_mode_lines(x11, "LVDS-1"), vec![s("   1920x1080     60.00*+  40.00"), s("   1280x720      59.86")]);
}

#[test]
fn mode_selection() {
    let modes = vec![s("2560x1600@165.002+vrr"), s("2560x1600@60.000"), s("1920x1200@60.000")];
    assert_eq!(find_mode_by_string(&modes, "2560x1600@60.000"), Some(1));
    assert_eq!(find_mode_by_string(&modes, "2560x1600@165.002"), Some(0));
    assert_eq!(find_mode_by_string(&modes, "800x600@60.000"), None);
    assert_eq!(modes_with_resolution(&vec![(2560, 1600), (1920, 1200), (2560, 1600)], 2560, 1600), vec![0, 2]);
    assert_eq!(vrr_candidates(&vec![false, true, true], true), vec![1, 2]);
    assert_eq!(vrr_candidates(&vec![false, false], true), vec![0, 1]);
    assert_eq!(vrr_candidates(&vec![false, true], false), vec![0, 1]);
}

fn pci(id: &str, class: u32, vendor: u16, device: u16) -> PciInfo {
    PciInfo { id: s(id), class, vendor, device }
}

fn hybrid_laptop() -> Graphics {
    Graphics::new(&vec![
        pci("0000:00:02.0", 0x030000, 0x8086, 0x9a49),
        pci("0000:01:00.0", 0x030000, 0x10DE, 0x2520),
        pci("0000:01:00.1", 0x040300, 0x10DE, 0x228e),
        pci("0000:00:1f.3", 0x040380, 0x8086, 0xa0c8),
    ])
}

#[test]
fn graphics_devices() {
    let g = hybrid_laptop();
    assert_eq!(g.intel.len(), 1);
    assert_eq!(g.nvidia.len(), 1);
    assert_eq!(g.nvidia[0].id, "0000:01:00.0");
    assert_eq!(g.nvidia[0].device(), 0x2520);
    assert_eq!(g.nvidia[0].functions, vec![s("0000:01:00.0"), s("0000:01:00.1")]);
    assert!(g.can_switch(false));
    assert!(!g.can_switch(true));
    assert!(matches!(g.switchable_or_fail(true), Err(GraphicsDeviceError::NotSwitchable)));
    assert!(matches!(g.get_external_displays_require_dgpu(false, "oryp6\n"), Ok(true)));
    assert!(matches!(g.get_external_displays_require_dgpu(false, "galp5"), Ok(false)));
    assert!(g.switch_runtime_check(false, "galp5").is_ok());
    assert!(g.switch_runtime_check(false, "oryp6").is_err());
    let desktop = Graphics::new(&vec![pci("0000:01:00.0", 0x030000, 0x10DE, 0x2520)]);
    assert!(!desktop.can_switch(false));
}

#[test]
fn graphics_modes() {
    let g = hybrid_laptop();
    assert!(matches!(g.get_default_graphics(false, "System76", "oryp6", true), Ok(GraphicsMode::Hybrid)));
    assert!(matches!(g.get_default_graphics(false, "System76", "oryp6", false), Ok(GraphicsMode::Integrated)));
    assert!(matches!(g.get_default_graphics(false, "System76\n", "bonw16", true), Ok(GraphicsMode::Discrete)));
    assert!(matches!(g.get_default_graphics(false, "Other", "x", true), Ok(GraphicsMode::Discrete)));
    assert_eq!(Graphics::get_vendor(false, Some("on")), GraphicsMode::Integrated);
    assert_eq!(Graphics::get_vendor(true, Some("on-demand\n")), GraphicsMode::Hybrid);
    assert_eq!(Graphics::get_vendor(true, Some("off")), GraphicsMode::Compute);
    assert_eq!(Graphics::get_vendor(true, None), GraphicsMode::Discrete);
    assert_eq!(GraphicsMode::from_vendor("nvidia"), GraphicsMode::Discrete);
    assert_eq!(GraphicsMode::from_vendor("anything"), GraphicsMode::Integrated);
    for m in [GraphicsMode::Integrated, GraphicsMode::Compute, GraphicsMode::Hybrid, GraphicsMode::Discrete] {
        assert_eq!(GraphicsMode::from_vendor(m.as_str()), m);
    }
    assert!(Graphics::auto_power(GraphicsMode::Hybrid, false));
    assert!(!Graphics::auto_power(GraphicsMode::Integrated, false));
    assert!(matches!(g.get_power(false, &vec![false, true]), Ok(true)));
    assert!(matches!(g.get_power(false, &vec![false]), Ok(false)));
}

#[test]
fn graphics_switch_plans() {
    let g = hybrid_laptop();
    let p = g.set_vendor(false, GraphicsMode::Hybrid, "System76", "oryp6", "s2idle [deep]").ok().unwrap();
    assert_eq!(p.prime_mode, "on-demand\n");
    assert_eq!(p.modprobe, ModprobeConfig::Hybrid);
    assert_eq!(p.sleep, Some((SleepConfig::S3, true)));
    assert!(!p.write_xorg_conf);
    let p = g.set_vendor(false, GraphicsMode::Compute, "System76", "bonw15", "[s2idle] deep").ok().unwrap();
    assert_eq!(p.modprobe, ModprobeConfig::ComputeNoGc6);
    assert_eq!(p.sleep, Some((SleepConfig::Empty, false)));
    let p = g.set_vendor(false, GraphicsMode::Discrete, "System76", "oryp6", "[s2idle] deep").ok().unwrap();
    assert_eq!(p.prime_mode, "on\n");
    assert_eq!(p.sleep, Some((SleepConfig::S0ix, true)));
    assert!(p.write_xorg_conf && p.enable_fallback);
    let p = g.set_vendor(false, GraphicsMode::Integrated, "System76", "oryp6", "").ok().unwrap();
    assert_eq!(p.prime_mode, "off\n");
    assert_eq!(p.sleep, None);
    assert!(ModprobeConfig::Integrated.text().contains("blacklist nouveau\n"));
    assert_eq!(SleepConfig::Empty.text(), "");
    assert!(g.set_vendor(true, GraphicsMode::Hybrid, "System76", "oryp6", "").is_err());
}

#[test]
fn graphics_helpers() {
    assert!(is_desktop_chassis("3\n"));
    assert!(!is_desktop_chassis("10"));
    assert_eq!(power_control_value(GraphicsMode::Discrete), "on\n");
    assert_eq!(power_control_value(GraphicsMode::Hybrid), "auto\n");
    assert_eq!(power_control_path("0000:01:00.0"), "/sys/bus/pci/devices/0000:01:00.0/power/control");
    assert_eq!(parse_nvidia_devid("0x2520"), 0x2520);
    assert_eq!(parse_nvidia_devid("zz"), 0);
    assert_eq!(find_nvidia_device(&vec![s("0x1f95"), s("0x2520")], 0x2520), Some(1));
    assert!(supports_runtimepm(&vec![s("kernelopen"), s("runtimepm")]));
    assert!(!supports_runtimepm(&vec![]));
    assert_eq!(load_modules_for_mode(GraphicsMode::Compute), vec![("nvidia", None)]);
    assert_eq!(load_modules_for_mode(GraphicsMode::Integrated).len(), 0);
    assert!(check_single_driver(1).is_ok());
    assert_eq!(GraphicsDeviceError::NotSwitchable.message(), "does not have switchable graphics");
    assert_eq!(
        GraphicsDeviceError::Unbind { func: s("0000:01:00.1"), driver: s("snd_hda_intel"), why: s("busy") }.message(),
        "failed to unbind 0000:01:00.1 on PCI driver snd_hda_intel: busy"
    );
}

#[test]
fn hotplug_layouts() {
    match hotplug_layout("oryp6\n", None, None) {
        Ok(HotPlugLayout::Intel { sideband_base, port, pins }) => {
            assert_eq!(sideband_base, PCR_BASE_ADDRESS);
            assert_eq!(port, 0x6A);
            assert_eq!(pins, [0x2a, 0x2c, 0x2e, NO_PIN]);
        },
        _ => panic!("oryp6 has an Intel layout"),
    }
    match hotplug_layout("kudu6", None, None) {
        Ok(HotPlugLayout::Amd { gpios }) => assert_eq!(gpios, vec![0x02, 0x03, 0x15]),
        _ => panic!("kudu6 has an AMD layout"),
    }
    match hotplug_layout("gaze14", Some("0x8999"), None) {
        Err(e) => assert_eq!(e.message(), "gaze14 variant '0x8999' does not support hotplug detection"),
        _ => panic!("unknown variant"),
    }
    match hotplug_layout("pang12", None, None) {
        Err(HotPlugDetectError::ModelUnsupported(m)) => assert_eq!(m, "pang12"),
        _ => panic!("unsupported model"),
    }
}

#[test]
fn hotplug_detection() {
    assert_eq!(intel_detect([0x2a, NO_PIN, 0x2e, 0x30], [2, 2, 0, 3]), [true, false, false, true]);
    let intel = Intel { port: 0x6A, pins: [0x2a, 0x2c, NO_PIN, NO_PIN] };
    assert_eq!(intel.detect([0, 2, 2, 2]), [false, true, false, false]);
    assert_eq!(amd_detect(&vec![Some(0x1_0000), None, Some(0x1_0000)]), [true, false, false, false]);
    let mux = display_port_mux_layout("galp3-c").ok().unwrap();
    assert_eq!(mux.hpd, (0x6A, 0x4A));
    assert_eq!(mux.step(2, 0), None);
    assert_eq!(mux.step(0, 1), Some(0));
    assert_eq!(mux.step(0, 6), Some(7));
    assert!(display_port_mux_layout("oryp6").is_err());
}

fn run_switch(
    vendor: GraphicsMode,
    dm: Option<&'static str>,
    fail_at: Option<SwitchStep>,
) -> (Vec<SwitchStep>, Result<&'static str, String>) {
    let g = hybrid_laptop();
    let mut s = SwitchRuntime::start(&g, false, "galp5", vendor).unwrap();
    let mut steps = vec![s.at];
    let mut event = SwitchEvent::Found(dm);
    loop {
        match s.next(event) {
            SwitchNext::Do(step) => {
                steps.push(step);
                event = if Some(step) == fail_at {
                    SwitchEvent::Failed(GraphicsDeviceError::Rescan("bus busy".to_string()))
                } else {
                    SwitchEvent::Succeeded
                };
            }
            SwitchNext::Finish(r) => return (steps, r.map_err(|e| e.message())),
        }
    }
}

#[test]
fn runtime_switch_steps() {
    let (steps, r) = run_switch(GraphicsMode::Hybrid, Some("gdm3"), None);
    assert_eq!(
        steps,
        vec![
            SwitchStep::DetectDisplayManager,
            SwitchStep::StopDisplayManager("gdm3"),
            SwitchStep::Wait(2000),
            SwitchStep::StopNvidiaServices,
            SwitchStep::UnbindFramebuffers,
            SwitchStep::KillNvidiaDeviceUsers,
            SwitchStep::UnloadModule(0),
            SwitchStep::UnloadModule(1),
            SwitchStep::UnloadModule(2),
            SwitchStep::UnloadModule(3),
            SwitchStep::UnbindDevices,
            SwitchStep::RemoveDevices,
            SwitchStep::WriteVendorConfig(GraphicsMode::Hybrid),
            SwitchStep::RefreshDevices,
            SwitchStep::LoadModules(GraphicsMode::Hybrid),
            SwitchStep::StartNvidiaServices,
            SwitchStep::SetPowerControl(GraphicsMode::Hybrid),
            SwitchStep::StartDisplayManager("gdm3"),
        ]
    );
    assert_eq!(r, Ok("gdm3"));

    // Integrated: the NVIDIA stack stays down, and gdm is started when none was found.
    let (steps, r) = run_switch(GraphicsMode::Integrated, None, None);
    assert_eq!(steps[1], SwitchStep::StopNvidiaServices);
    assert!(!steps.contains(&SwitchStep::RefreshDevices));
    assert_eq!(steps[steps.len() - 2], SwitchStep::SetPowerControl(GraphicsMode::Integrated));
    assert_eq!(r, Ok("gdm"));

    // A failed rescan stops the switch with its error; nothing is loaded.
    let (steps, r) = run_switch(GraphicsMode::Discrete, None, Some(SwitchStep::RefreshDevices));
    assert_eq!(*steps.last().unwrap(), SwitchStep::RefreshDevices);
    assert_eq!(r, Err("failed to rescan PCI bus: bus busy".to_string()));

    // A failed unload is passed over.
    let (steps, r) = run_switch(GraphicsMode::Compute, None, Some(SwitchStep::UnloadModule(1)));
    assert!(steps.contains(&SwitchStep::UnloadModule(2)));
    assert_eq!(r, Ok("gdm"));

    // Not allowed where external displays need the NVIDIA GPU.
    assert!(SwitchRuntime::start(&hybrid_laptop(), false, "oryp6", GraphicsMode::Hybrid).is_err());
}

#[test]
fn gnome_mode_line_fields() {
    let f = gnome_mode_fields("  2560x1600@165.000+vrr   2560x1600   165.000*+").unwrap();
    assert_eq!(f.mode_string, "2560x1600@165.000+vrr");
    assert_eq!((f.width, f.height), (2560, 1600));
    assert!(f.has_vrr);
    assert_eq!(f.rate, "165.000");
    let g = gnome_mode_fields("1920x1080@60.000  1920x1080  60.000").unwrap();
    assert!(!g.has_vrr);
    assert_eq!(g.rate, "60.000");
    assert!(gnome_mode_fields("").is_none());
    assert!(gnome_mode_fields("associated physical monitors:").is_none());
    assert!(gnome_mode_fields("1920x@60").is_none());
}

#[test]
fn xrandr_mode_line_fields() {
    let f = xrandr_mode_fields("   1920x1080     144.00*+  60.01    59.97  ").unwrap();
    assert_eq!(f.resolution, "1920x1080");
    assert_eq!((f.width, f.height), (1920, 1080));
    assert_eq!(f.rates, vec!["144.00".to_string(), "60.01".to_string(), "59.97".to_string()]);
    let g = xrandr_mode_fields("1280x720 60.00 +").unwrap();
    assert_eq!(g.rates, vec!["60.00".to_string(), "".to_string()]);
    assert!(xrandr_mode_fields("eDP-1 connected primary").is_none());
    assert!(xrandr_mode_fields("   ").is_none());
}

#[test]
fn session_env_steps() {
    let env = vec![("DISPLAY".to_string(), ":0".to_string())];
    match session_env_step("alice", EnvSource::Compositor, env.clone()) {
        SessionEnvNext::Done(Ok(v)) => assert_eq!(v, env),
        other => panic!("unexpected {:?}", other),
    }
    assert!(matches!(session_env_step("alice", EnvSource::Compositor, Vec::new()), SessionEnvNext::AskLeader));
    match session_env_step("alice", EnvSource::Leader, env.clone()) {
        SessionEnvNext::Done(Ok(v)) => assert_eq!(v, env),
        other => panic!("unexpected {:?}", other),
    }
    match session_env_step("alice", EnvSource::Leader, Vec::new()) {
        SessionEnvNext::Done(Err(DisplayError::Io(m))) => {
            assert_eq!(m, "no display environment variables found for user alice")
        }
        other => panic!("unexpected {:?}", other),
    }
}
