use system76_power::charge_thresholds::get_charge_profiles;
use system76_power::cli::charge_thresholds::{list_lines, possible_profile_names, status_lines, ChargeAction, Command as ChargeCommand, Subcommand as ChargeSubcommand};
use system76_power::cli::daemon::{Command as DaemonCommand, LogLevel};
use system76_power::cli::graphics::{power_text, switchable_text, Command as GraphicsCommand, GraphicsRequest, State, Subcommand};
use system76_power::cli::profile::{print_cpu_line, print_profile_line, Command as ProfileCommand, PowerProfile};
use system76_power::cli::Command;
use system76_power::Profile;

#[test]
fn daemon_command() {
    assert_eq!(DaemonCommand { quiet: true, verbose: true }.log_level(), LogLevel::Off);
    assert_eq!(DaemonCommand { quiet: false, verbose: true }.log_level(), LogLevel::Debug);
    assert_eq!(DaemonCommand { quiet: false, verbose: false }.log_level(), LogLevel::Info);
    assert_eq!(DaemonCommand { quiet: false, verbose: false }.run(1000), Err("must be run as root"));
    assert_eq!(DaemonCommand { quiet: false, verbose: false }.run(0), Ok(()));
    assert!(!Command::Daemon(DaemonCommand { quiet: false, verbose: false }).needs_client());
    assert!(Command::Profile(ProfileCommand { profile: None }).needs_client());
}

#[test]
fn profile_command() {
    assert_eq!(ProfileCommand { profile: Some(PowerProfile::Battery) }.run(), Some(Profile::Battery));
    assert_eq!(ProfileCommand { profile: None }.run(), None);
    assert_eq!(print_profile_line(Some("balanced")), "Power Profile: balanced");
    assert_eq!(print_profile_line(None), "Power Profile: ?");
    assert_eq!(print_cpu_line(0, 50, true), "CPU: 0% - 50%, No Turbo");
    assert_eq!(print_cpu_line(50, 100, false), "CPU: 50% - 100%, Turbo");
}

#[test]
fn graphics_command() {
    assert_eq!(GraphicsCommand { subcommand: None }.run(), GraphicsRequest::QueryGraphics);
    assert_eq!(GraphicsCommand { subcommand: Some(Subcommand::Hybrid) }.run(), GraphicsRequest::SetGraphics("hybrid"));
    assert_eq!(
        GraphicsCommand { subcommand: Some(Subcommand::Power { state: Some(State::Off) }) }.run(),
        GraphicsRequest::SetPower(false)
    );
    assert_eq!(GraphicsCommand { subcommand: Some(Subcommand::Power { state: None }) }.run(), GraphicsRequest::QueryPower);
    assert_eq!(switchable_text(false), "not switchable");
    assert_eq!(power_text(true), "on (discrete)");
}

#[test]
fn charge_thresholds_command() {
    let profiles = get_charge_profiles();
    assert_eq!(ChargeCommand { subcommand: None }.run(&profiles), Some(ChargeAction::List));
    assert_eq!(
        ChargeCommand { subcommand: Some(ChargeSubcommand::SetProfile { name: "balanced".to_string() }) }.run(&profiles),
        Some(ChargeAction::SetThresholds(86, 90))
    );
    assert_eq!(
        ChargeCommand { subcommand: Some(ChargeSubcommand::SetProfile { name: "none".to_string() }) }.run(&profiles),
        None
    );
    assert_eq!(
        ChargeCommand { subcommand: Some(ChargeSubcommand::SetThresholds { start: 40, end: 80 }) }.run(&profiles),
        Some(ChargeAction::SetThresholds(40, 80))
    );
    let lines = list_lines(&profiles);
    assert_eq!(lines.len(), 15);
    assert_eq!(lines[0], "full_charge");
    assert_eq!(lines[1], "  Title: Full Charge");
    assert_eq!(lines[3], "  Start: 90");
    assert_eq!(lines[4], "  End: 100");
    assert_eq!(status_lines(&profiles, 50, 60), vec!["Profile: Maximum Lifespan (max_lifespan)", "Start: 50", "End: 60"]);
    assert_eq!(status_lines(&profiles, 40, 80), vec!["Profile: Custom", "Start: 40", "End: 80"]);
}

#[test]
fn charge_profile_names() {
    assert_eq!(possible_profile_names(), vec!["full_charge", "balanced", "max_lifespan"]);
}
