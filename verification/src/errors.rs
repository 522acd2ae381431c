//! The errors met while applying a power profile, with the messages they are reported
//! with. The reason an operation failed is kept as the text it was reported with.
use crate::text::{chars_of, decimal, push_all, push_decimal, push_signed, push_str, signed_decimal, string_of};
use vstd::prelude::*;

verus! {

/// How `Debug` writes a path: quoted, with escapes.
pub uninterp spec fn path_debug_text(s: Seq<char>) -> Seq<char>;

/// `format!("{:?}", Path::new(s))`: `<Path as Debug>::fmt`, whose result depends on the
/// path alone.
#[verifier::external_body]
fn path_debug_of(s: &str) -> (r: String)
    ensures
        r@ == path_debug_text(s@),
{
    format!("{:?}", std::path::Path::new(s))
}

/// A backlight could not be set.
#[derive(Clone, Debug)]
pub enum BacklightError {
    /// The backlight and why it failed.
    SetBrightness(String, String),
}

/// A disk's power settings could not be set.
#[derive(Clone, Debug)]
pub enum DiskPowerError {
    /// The disk, the APM level, and why it failed.
    ApmLevel(String, u8, String),
    /// The disk's block directory, the delay in milliseconds, and why it failed.
    AutosuspendDelay(String, i32, String),
}

/// A model profile could not be applied.
#[derive(Clone, Debug)]
pub enum ModelError {
    Thermald(String),
    Pl1(String),
    Pl2(String),
    ModprobeIo(String),
    ModprobeExitStatus(String),
    MsrOpen(String),
    MsrSeek(String),
    MsrRead(String),
    MsrWrite(String),
    Tcc(String),
}

/// A PCI device's runtime power management could not be set.
#[derive(Clone, Debug)]
pub enum PciDeviceError {
    /// The device and why it failed.
    SetRuntimePm(String, String),
}

/// A SCSI host's link power management policy could not be set.
#[derive(Clone, Debug)]
pub enum ScsiHostError {
    /// The first policy tried, the host, and why it failed.
    LinkTimePolicy(&'static str, String, String),
}

/// A part of a profile that could not be applied.
#[derive(Clone, Debug)]
pub enum ProfileError {
    Backlight(BacklightError),
    DiskPower(DiskPowerError),
    Model(ModelError),
    PciDevice(PciDeviceError),
    /// Why the Intel P-state values could not be set.
    PState(String),
    ScsiHost(ScsiHostError),
}

pub open spec fn backlight_message(e: BacklightError) -> Seq<char> {
    match e {
        BacklightError::SetBrightness(id, why) => "failed to set backlight on "@ + id@ + ": "@ + why@,
    }
}

pub open spec fn disk_power_message(e: DiskPowerError) -> Seq<char> {
    match e {
        DiskPowerError::ApmLevel(path, level, why) => "failed to set disk APM level on "@ + path_debug_text(path@)
            + " to "@ + decimal(level as nat) + ": "@ + why@,
        DiskPowerError::AutosuspendDelay(path, ms, why) => "failed to set disk autosuspend delay on "@
            + path_debug_text(path@) + " to "@ + signed_decimal(ms as int) + ": "@ + why@,
    }
}

pub open spec fn model_message(e: ModelError) -> Seq<char> {
    match e {
        ModelError::Thermald(why) => "failed to stop thermald: "@ + why@,
        ModelError::Pl1(why) => "failed to set PL1: "@ + why@,
        ModelError::Pl2(why) => "failed to set PL2: "@ + why@,
        ModelError::ModprobeIo(why) => "failed to modprobe msr: "@ + why@,
        ModelError::ModprobeExitStatus(why) => "failed to modprobe msr: "@ + why@,
        ModelError::MsrOpen(why) => "failed to open msr: "@ + why@,
        ModelError::MsrSeek(why) => "failed to seek msr: "@ + why@,
        ModelError::MsrRead(why) => "failed to read msr: "@ + why@,
        ModelError::MsrWrite(why) => "failed to write msr: "@ + why@,
        ModelError::Tcc(why) => "failed to set TCC: "@ + why@,
    }
}

pub open spec fn pci_device_message(e: PciDeviceError) -> Seq<char> {
    match e {
        PciDeviceError::SetRuntimePm(id, why) => "failed to set PCI device runtime PM on "@ + id@ + ": "@
            + why@,
    }
}

pub open spec fn scsi_host_message(e: ScsiHostError) -> Seq<char> {
    match e {
        ScsiHostError::LinkTimePolicy(policy, id, why) => "failed to set link time power management policy "@
            + policy@ + " on "@ + id@ + ": "@ + why@,
    }
}

pub open spec fn profile_message(e: ProfileError) -> Seq<char> {
    match e {
        ProfileError::Backlight(b) => "failed to set backlight profiles: "@ + backlight_message(b),
        ProfileError::DiskPower(d) => "failed to set disk power profiles: "@ + disk_power_message(d),
        ProfileError::Model(m) => "failed to set model profiles: "@ + model_message(m),
        ProfileError::PciDevice(p) => "failed to set pci device profiles: "@ + pci_device_message(p),
        ProfileError::PState(why) => "failed to set pstate profiles: "@ + why@,
        ProfileError::ScsiHost(s) => "failed to set scsi host profiles: "@ + scsi_host_message(s),
    }
}

fn push_parts(out: &mut Vec<char>, a: &str, b: &str)
    ensures
        final(out)@ == old(out)@ + a@ + b@,
{
    push_str(out, a);
    push_str(out, b);
}

impl BacklightError {
    pub fn message(&self) -> (m: String)
        ensures
            m@ == backlight_message(*self),
    {
        let mut t: Vec<char> = Vec::new();
        match self {
            BacklightError::SetBrightness(id, why) => {
                push_parts(&mut t, "failed to set backlight on ", id.as_str());
                push_parts(&mut t, ": ", why.as_str());
            },
        }
        assert(t@ =~= backlight_message(*self));
        string_of(&t)
    }
}

impl DiskPowerError {
    pub fn message(&self) -> (m: String)
        ensures
            m@ == disk_power_message(*self),
    {
        let mut t: Vec<char> = Vec::new();
        match self {
            DiskPowerError::ApmLevel(path, level, why) => {
                push_parts(&mut t, "failed to set disk APM level on ", path_debug_of(path.as_str()).as_str());
                push_str(&mut t, " to ");
                push_decimal(&mut t, *level as u64);
                push_parts(&mut t, ": ", why.as_str());
            },
            DiskPowerError::AutosuspendDelay(path, ms, why) => {
                push_parts(&mut t, "failed to set disk autosuspend delay on ", path_debug_of(path.as_str()).as_str());
                push_str(&mut t, " to ");
                push_signed(&mut t, *ms as i64);
                push_parts(&mut t, ": ", why.as_str());
            },
        }
        assert(t@ =~= disk_power_message(*self));
        string_of(&t)
    }
}

impl ModelError {
    pub fn message(&self) -> (m: String)
        ensures
            m@ == model_message(*self),
    {
        let (prefix, why) = match self {
            ModelError::Thermald(why) => ("failed to stop thermald: ", why),
            ModelError::Pl1(why) => ("failed to set PL1: ", why),
            ModelError::Pl2(why) => ("failed to set PL2: ", why),
            ModelError::ModprobeIo(why) => ("failed to modprobe msr: ", why),
            ModelError::ModprobeExitStatus(why) => ("failed to modprobe msr: ", why),
            ModelError::MsrOpen(why) => ("failed to open msr: ", why),
            ModelError::MsrSeek(why) => ("failed to seek msr: ", why),
            ModelError::MsrRead(why) => ("failed to read msr: ", why),
            ModelError::MsrWrite(why) => ("failed to write msr: ", why),
            ModelError::Tcc(why) => ("failed to set TCC: ", why),
        };
        let mut t: Vec<char> = Vec::new();
        push_parts(&mut t, prefix, why.as_str());
        assert(t@ =~= model_message(*self));
        string_of(&t)
    }
}

impl PciDeviceError {
    pub fn message(&self) -> (m: String)
        ensures
            m@ == pci_device_message(*self),
    {
        let mut t: Vec<char> = Vec::new();
        match self {
            PciDeviceError::SetRuntimePm(id, why) => {
                push_parts(&mut t, "failed to set PCI device runtime PM on ", id.as_str());
                push_parts(&mut t, ": ", why.as_str());
            },
        }
        assert(t@ =~= pci_device_message(*self));
        string_of(&t)
    }
}

impl ScsiHostError {
    pub fn message(&self) -> (m: String)
        ensures
            m@ == scsi_host_message(*self),
    {
        let mut t: Vec<char> = Vec::new();
        match self {
            ScsiHostError::LinkTimePolicy(policy, id, why) => {
                push_parts(&mut t, "failed to set link time power management policy ", policy);
                push_parts(&mut t, " on ", id.as_str());
                push_parts(&mut t, ": ", why.as_str());
            },
        }
        assert(t@ =~= scsi_host_message(*self));
        string_of(&t)
    }
}

impl ProfileError {
    pub fn message(&self) -> (m: String)
        ensures
            m@ == profile_message(*self),
    {
        let mut t: Vec<char> = Vec::new();
        match self {
            ProfileError::Backlight(b) => {
                push_parts(&mut t, "failed to set backlight profiles: ", b.message().as_str());
            },
            ProfileError::DiskPower(d) => {
                push_parts(&mut t, "failed to set disk power profiles: ", d.message().as_str());
            },
            ProfileError::Model(e) => {
                push_parts(&mut t, "failed to set model profiles: ", e.message().as_str());
            },
            ProfileError::PciDevice(p) => {
                push_parts(&mut t, "failed to set pci device profiles: ", p.message().as_str());
            },
            ProfileError::PState(why) => {
                push_parts(&mut t, "failed to set pstate profiles: ", why.as_str());
            },
            ProfileError::ScsiHost(s) => {
                push_parts(&mut t, "failed to set scsi host profiles: ", s.message().as_str());
            },
        }
        assert(t@ =~= profile_message(*self));
        string_of(&t)
    }
}

} // verus!
