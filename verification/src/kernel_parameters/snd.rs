//! The power saving parameters of a sound driver.
use super::{power_save, power_save_controller, KernelParameter};
use vstd::prelude::*;

verus! {

/// The module name of the Intel HD Audio driver.
pub const HDA_INTEL: &'static str = "snd_hda_intel";

/// The module name of the AC'97 driver.
pub const AC97: &'static str = "snd_ac97_codec";

/// The power saving parameters of a sound driver module; the controller parameter
/// only where the module has one.
#[derive(Clone, Debug)]
pub struct SoundDevice {
    pub power_save: KernelParameter,
    pub power_save_controller: Option<KernelParameter>,
}

impl SoundDevice {
    /// The sound device of module `device`, given whether the device exists and whether
    /// its module has a `power_save_controller` parameter; none where the device does
    /// not exist.
    pub fn new(device: &str, exists: bool, controller_exists: bool) -> (d: Option<SoundDevice>)
        ensures
            match d {
                Some(s) => exists && s.power_save.path@ == "/sys/module/"@ + device@
                    + "/parameters/power_save"@ && match s.power_save_controller {
                    Some(c) => controller_exists && c.path@ == "/sys/module/"@ + device@
                        + "/parameters/power_save_controller"@,
                    None => !controller_exists,
                },
                None => !exists,
            },
    {
        if !exists {
            return None;
        }
        let controller = power_save_controller(device);
        Some(
            SoundDevice {
                power_save: power_save(device),
                power_save_controller: if controller_exists {
                    Some(controller)
                } else {
                    None
                },
            },
        )
    }
}

} // verus!
