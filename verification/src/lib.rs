pub mod ac_events;
pub mod acpi_platform;
pub mod backlight;
pub mod charge_thresholds;
pub mod cli;
pub mod config;
pub mod cpufreq;
pub mod daemon;
pub mod disks;
pub mod display;
pub mod entries;
pub mod errors;
pub mod fan;
pub mod graphics;
pub mod hid_backlight;
pub mod hotplug;
pub mod kbd_backlight;
pub mod keyboard;
pub mod kernel_parameters;
pub mod laptop_mode;
pub mod modprobe;
pub mod runtime_switch;
pub mod single_precision;
pub mod sysfs;
pub mod text;

use vstd::prelude::*;

verus! {

/// The power profiles of the daemon.
#[derive(Clone, Copy, Debug, PartialEq, Eq, Structural)]
pub enum Profile {
    Battery,
    Balanced,
    Performance,
}

/// What the daemon offers its clients.
pub trait Power {
    fn performance(&mut self) -> Result<(), String>;

    fn balanced(&mut self) -> Result<(), String>;

    fn battery(&mut self) -> Result<(), String>;

    fn get_external_displays_require_dgpu(&mut self) -> Result<bool, String>;

    fn get_default_graphics(&mut self) -> Result<String, String>;

    fn get_graphics(&mut self) -> Result<String, String>;

    fn get_profile(&mut self) -> Result<String, String>;

    fn get_switchable(&mut self) -> Result<bool, String>;

    fn set_graphics(&mut self, vendor: &str) -> Result<(), String>;

    fn get_graphics_power(&mut self) -> Result<bool, String>;

    fn set_graphics_power(&mut self, power: bool) -> Result<(), String>;

    fn auto_graphics_power(&mut self) -> Result<(), String>;

    fn get_charge_thresholds(&mut self) -> Result<(u8, u8), String>;

    fn set_charge_thresholds(&mut self, thresholds: (u8, u8)) -> Result<(), String>;

    fn get_charge_profiles(&mut self) -> Result<Vec<charge_thresholds::ChargeProfile>, String>;
}

} // verus!
