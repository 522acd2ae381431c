//! Switchable graphics: the graphics devices, the mode a system is in or defaults to,
//! and the configuration that switching to a mode writes.
use crate::text::{
    chars_eq, chars_of, contains, contains_chars, occurs_at, first_field, first_field_chars, eq_lit,
    parse_unsigned, parse_unsigned_chars, string_of, trim, trim_chars, trim_start_matches, skip_ws, skip_ws_back,
    trim_start_matches_chars,
};
use vstd::prelude::*;

verus! {

#[derive(Copy, Clone, Debug, Eq, PartialEq, Structural)]
pub enum GraphicsMode {
    Integrated,
    Compute,
    Hybrid,
    Discrete,
}

pub open spec fn mode_name(m: GraphicsMode) -> Seq<char> {
    match m {
        GraphicsMode::Integrated => "integrated"@,
        GraphicsMode::Compute => "compute"@,
        GraphicsMode::Hybrid => "hybrid"@,
        GraphicsMode::Discrete => "nvidia"@,
    }
}

/// The mode a vendor name asks for; any name but `nvidia`, `hybrid` and `compute` asks for
/// integrated graphics.
pub open spec fn mode_of_vendor(vendor: Seq<char>) -> GraphicsMode {
    if vendor == "nvidia"@ {
        GraphicsMode::Discrete
    } else if vendor == "hybrid"@ {
        GraphicsMode::Hybrid
    } else if vendor == "compute"@ {
        GraphicsMode::Compute
    } else {
        GraphicsMode::Integrated
    }
}

impl GraphicsMode {
    /// The name of the mode.
    pub fn as_str(self) -> (s: &'static str)
        ensures
            s@ == mode_name(self),
    {
        match self {
            GraphicsMode::Integrated => "integrated",
            GraphicsMode::Compute => "compute",
            GraphicsMode::Hybrid => "hybrid",
            GraphicsMode::Discrete => "nvidia",
        }
    }

    /// The mode a vendor name asks for.
    pub fn from_vendor(vendor: &str) -> (m: Self)
        ensures
            m == mode_of_vendor(vendor@),
    {
        let v = chars_of(vendor);
        if eq_lit(&v, "nvidia") {
            GraphicsMode::Discrete
        } else if eq_lit(&v, "hybrid") {
            GraphicsMode::Hybrid
        } else if eq_lit(&v, "compute") {
            GraphicsMode::Compute
        } else {
            GraphicsMode::Integrated
        }
    }
}

/// Each mode's name gives the mode back.
pub proof fn lemma_mode_name_round_trip(m: GraphicsMode)
    ensures
        mode_of_vendor(mode_name(m)) == m,
{
    reveal_strlit("integrated");
    reveal_strlit("compute");
    reveal_strlit("hybrid");
    reveal_strlit("nvidia");
    assert("integrated"@.len() != "nvidia"@.len());
    assert("integrated"@.len() != "hybrid"@.len());
    assert("integrated"@.len() != "compute"@.len());
    assert("compute"@.len() != "nvidia"@.len());
    assert("compute"@.len() != "hybrid"@.len());
    assert("hybrid"@[0] != "nvidia"@[0]);
}

#[derive(Debug)]
pub enum GraphicsDeviceError {
    Command { cmd: &'static str, why: String },
    DeviceInUse { func: String, driver: String },
    DisplayManagerStop { dm: String, why: String },
    DisplayManagerStart { dm: String, why: String },
    Json(String),
    ModuleLoad { module: &'static str, why: String },
    ModuleUnload { module: &'static str, why: String },
    ModprobeFileOpen(String),
    ModprobeFileWrite(String),
    ModulesFetch(String),
    NotSwitchable,
    PciDriver { device: String, why: String },
    PrimeModeRead(String),
    PrimeModeWrite(String),
    Remove { device: String, why: String },
    Rescan(String),
    SysFs(String),
    Unbind { func: String, driver: String, why: String },
    UpdateInitramfs(String),
    XserverConf(String),
}

/// The message of a graphics error.
pub open spec fn graphics_error_message(e: GraphicsDeviceError) -> Seq<char> {
    match e {
        GraphicsDeviceError::Command { cmd, why } => "failed to execute "@ + cmd@ + " command: "@ + why@,
        GraphicsDeviceError::DeviceInUse { func, driver } => func@ + " in use by "@ + driver@,
        GraphicsDeviceError::DisplayManagerStop { dm, why } => "failed to stop display manager "@ + dm@ + ": "@ + why@,
        GraphicsDeviceError::DisplayManagerStart { dm, why } => "failed to start display manager "@ + dm@ + ": "@ + why@,
        GraphicsDeviceError::Json(why) => "failed to probe driver features: "@ + why@,
        GraphicsDeviceError::ModuleLoad { module, why } => "failed to load kernel module "@ + module@ + ": "@ + why@,
        GraphicsDeviceError::ModuleUnload { module, why } => "failed to unload kernel module "@ + module@ + ": "@ + why@,
        GraphicsDeviceError::ModprobeFileOpen(why) => "failed to open system76-power modprobe file: "@ + why@,
        GraphicsDeviceError::ModprobeFileWrite(why) => "failed to write to system76-power modprobe file: "@ + why@,
        GraphicsDeviceError::ModulesFetch(why) => "failed to fetch list of active kernel modules: "@ + why@,
        GraphicsDeviceError::NotSwitchable => "does not have switchable graphics"@,
        GraphicsDeviceError::PciDriver { device, why } => "PCI driver error on "@ + device@ + ": "@ + why@,
        GraphicsDeviceError::PrimeModeRead(why) => "failed to get PRIME value: "@ + why@,
        GraphicsDeviceError::PrimeModeWrite(why) => "failed to set PRIME value: "@ + why@,
        GraphicsDeviceError::Remove { device, why } => "failed to remove PCI device "@ + device@ + ": "@ + why@,
        GraphicsDeviceError::Rescan(why) => "failed to rescan PCI bus: "@ + why@,
        GraphicsDeviceError::SysFs(why) => "failed to access sysfs info: "@ + why@,
        GraphicsDeviceError::Unbind { func, driver, why } => "failed to unbind "@ + func@ + " on PCI driver "@ + driver@ + ": "@ + why@,
        GraphicsDeviceError::UpdateInitramfs(status) => "update-initramfs failed with "@ + status@ + " status"@,
        GraphicsDeviceError::XserverConf(why) => "failed to access Xserver config: "@ + why@,
    }
}

impl GraphicsDeviceError {
    pub fn message(&self) -> (m: String)
        ensures
            m@ == graphics_error_message(*self),
    {
        let mut t: Vec<char> = Vec::new();
        match self {
            GraphicsDeviceError::Command { cmd, why } => {
                crate::text::push_str(&mut t, "failed to execute ");
                crate::text::push_str(&mut t, cmd);
                crate::text::push_str(&mut t, " command: ");
                crate::text::push_str(&mut t, why.as_str());
            },
            GraphicsDeviceError::DeviceInUse { func, driver } => {
                crate::text::push_str(&mut t, func.as_str());
                crate::text::push_str(&mut t, " in use by ");
                crate::text::push_str(&mut t, driver.as_str());
            },
            GraphicsDeviceError::DisplayManagerStop { dm, why } => {
                crate::text::push_str(&mut t, "failed to stop display manager ");
                crate::text::push_str(&mut t, dm.as_str());
                crate::text::push_str(&mut t, ": ");
                crate::text::push_str(&mut t, why.as_str());
            },
            GraphicsDeviceError::DisplayManagerStart { dm, why } => {
                crate::text::push_str(&mut t, "failed to start display manager ");
                crate::text::push_str(&mut t, dm.as_str());
                crate::text::push_str(&mut t, ": ");
                crate::text::push_str(&mut t, why.as_str());
            },
            GraphicsDeviceError::Json(why) => {
                crate::text::push_str(&mut t, "failed to probe driver features: ");
                crate::text::push_str(&mut t, why.as_str());
            },
            GraphicsDeviceError::ModuleLoad { module, why } => {
                crate::text::push_str(&mut t, "failed to load kernel module ");
                crate::text::push_str(&mut t, module);
                crate::text::push_str(&mut t, ": ");
                crate::text::push_str(&mut t, why.as_str());
            },
            GraphicsDeviceError::ModuleUnload { module, why } => {
                crate::text::push_str(&mut t, "failed to unload kernel module ");
                crate::text::push_str(&mut t, module);
                crate::text::push_str(&mut t, ": ");
                crate::text::push_str(&mut t, why.as_str());
            },
            GraphicsDeviceError::ModprobeFileOpen(why) => {
                crate::text::push_str(&mut t, "failed to open system76-power modprobe file: ");
                crate::text::push_str(&mut t, why.as_str());
            },
            GraphicsDeviceError::ModprobeFileWrite(why) => {
                crate::text::push_str(&mut t, "failed to write to system76-power modprobe file: ");
                crate::text::push_str(&mut t, why.as_str());
            },
            GraphicsDeviceError::ModulesFetch(why) => {
                crate::text::push_str(&mut t, "failed to fetch list of active kernel modules: ");
                crate::text::push_str(&mut t, why.as_str());
            },
            GraphicsDeviceError::NotSwitchable => {
                crate::text::push_str(&mut t, "does not have switchable graphics");
            },
            GraphicsDeviceError::PciDriver { device, why } => {
                crate::text::push_str(&mut t, "PCI driver error on ");
                crate::text::push_str(&mut t, device.as_str());
                crate::text::push_str(&mut t, ": ");
                crate::text::push_str(&mut t, why.as_str());
            },
            GraphicsDeviceError::PrimeModeRead(why) => {
                crate::text::push_str(&mut t, "failed to get PRIME value: ");
                crate::text::push_str(&mut t, why.as_str());
            },
            GraphicsDeviceError::PrimeModeWrite(why) => {
                crate::text::push_str(&mut t, "failed to set PRIME value: ");
                crate::text::push_str(&mut t, why.as_str());
            },
            GraphicsDeviceError::Remove { device, why } => {
                crate::text::push_str(&mut t, "failed to remove PCI device ");
                crate::text::push_str(&mut t, device.as_str());
                crate::text::push_str(&mut t, ": ");
                crate::text::push_str(&mut t, why.as_str());
            },
            GraphicsDeviceError::Rescan(why) => {
                crate::text::push_str(&mut t, "failed to rescan PCI bus: ");
                crate::text::push_str(&mut t, why.as_str());
            },
            GraphicsDeviceError::SysFs(why) => {
                crate::text::push_str(&mut t, "failed to access sysfs info: ");
                crate::text::push_str(&mut t, why.as_str());
            },
            GraphicsDeviceError::Unbind { func, driver, why } => {
                crate::text::push_str(&mut t, "failed to unbind ");
                crate::text::push_str(&mut t, func.as_str());
                crate::text::push_str(&mut t, " on PCI driver ");
                crate::text::push_str(&mut t, driver.as_str());
                crate::text::push_str(&mut t, ": ");
                crate::text::push_str(&mut t, why.as_str());
            },
            GraphicsDeviceError::UpdateInitramfs(status) => {
                crate::text::push_str(&mut t, "update-initramfs failed with ");
                crate::text::push_str(&mut t, status.as_str());
                crate::text::push_str(&mut t, " status");
            },
            GraphicsDeviceError::XserverConf(why) => {
                crate::text::push_str(&mut t, "failed to access Xserver config: ");
                crate::text::push_str(&mut t, why.as_str());
            },
        }
        assert(t@ =~= graphics_error_message(*self));
        string_of(&t)
    }
}

/// A graphics device: its PCI id, its device id, and the ids of the PCI functions in its
/// slot.
#[derive(Debug)]
pub struct GraphicsDevice {
    pub id: String,
    pub devid: u16,
    pub functions: Vec<String>,
}

impl GraphicsDevice {
    pub fn new(id: String, devid: u16, functions: Vec<String>) -> (d: Self)
        ensures
            d.id == id,
            d.devid == devid,
            d.functions == functions,
    {
        Self { id, devid, functions }
    }

    pub fn device(&self) -> (d: u16)
        ensures
            d == self.devid,
    {
        self.devid
    }
}

/// What the PCI bus says of a device.
#[derive(Debug)]
pub struct PciInfo {
    pub id: String,
    pub class: u32,
    pub vendor: u16,
    pub device: u16,
}

#[derive(Debug, Clone, Copy, PartialEq, Eq, Structural)]
pub enum GpuVendor {
    Amd,
    Nvidia,
    Intel,
    Other,
}

/// The vendor of a display controller, `None` for a device of another class.
pub open spec fn gpu_vendor(class: u32, vendor: u16) -> Option<GpuVendor> {
    if (class >> 16u32) & 0xFF == 0x03 {
        Some(if vendor == 0x1002 {
            GpuVendor::Amd
        } else if vendor == 0x10DE {
            GpuVendor::Nvidia
        } else if vendor == 0x8086 {
            GpuVendor::Intel
        } else {
            GpuVendor::Other
        })
    } else {
        None
    }
}

pub fn classify_pci_device(class: u32, vendor: u16) -> (r: Option<GpuVendor>)
    ensures
        r == gpu_vendor(class, vendor),
{
    if (class >> 16u32) & 0xFF == 0x03 {
        Some(if vendor == 0x1002 {
            GpuVendor::Amd
        } else if vendor == 0x10DE {
            GpuVendor::Nvidia
        } else if vendor == 0x8086 {
            GpuVendor::Intel
        } else {
            GpuVendor::Other
        })
    } else {
        None
    }
}

/// The slot of a PCI id: the text before its first `.`.
pub open spec fn pci_slot(id: Seq<char>) -> Seq<char> {
    first_field(id, '.')
}

/// The ids of the devices in the same slot as `parent`, in bus order.
pub open spec fn slot_functions(devs: Seq<PciInfo>, parent: Seq<char>) -> Seq<Seq<char>>
    decreases devs.len(),
{
    if devs.len() == 0 {
        Seq::empty()
    } else {
        let rest = slot_functions(devs.drop_last(), parent);
        if pci_slot(devs.last().id@) == pci_slot(parent) {
            rest.push(devs.last().id@)
        } else {
            rest
        }
    }
}

/// The display controllers of `kind`, in bus order.
pub open spec fn devices_of(devs: Seq<PciInfo>, kind: GpuVendor) -> Seq<PciInfo>
    decreases devs.len(),
{
    if devs.len() == 0 {
        Seq::empty()
    } else {
        let rest = devices_of(devs.drop_last(), kind);
        if gpu_vendor(devs.last().class, devs.last().vendor) == Some(kind) {
            rest.push(devs.last())
        } else {
            rest
        }
    }
}

/// `found` lists the display controllers of `kind` among `devs`, each with the functions
/// of its slot.
pub open spec fn lists_devices(found: Seq<GraphicsDevice>, devs: Seq<PciInfo>, kind: GpuVendor) -> bool {
    &&& found.len() == devices_of(devs, kind).len()
    &&& forall|i: int|
        0 <= i < found.len() ==> {
            &&& (#[trigger] found[i]).id@ == devices_of(devs, kind)[i].id@
            &&& found[i].devid == devices_of(devs, kind)[i].device
            &&& crate::text::string_views(found[i].functions@) == slot_functions(devs, found[i].id@)
        }
}

fn functions_for(devs: &Vec<PciInfo>, parent: &String) -> (r: Vec<String>)
    ensures
        crate::text::string_views(r@) == slot_functions(devs@, parent@),
{
    let parent_slot = first_field_chars(&chars_of(parent.as_str()), '.');
    let mut r: Vec<String> = Vec::new();
    let mut i: usize = 0;
    while i < devs.len()
        invariant
            i <= devs@.len(),
            parent_slot@ == pci_slot(parent@),
            crate::text::string_views(r@) == slot_functions(devs@.take(i as int), parent@),
        decreases devs@.len() - i,
    {
        assert(devs@.take(i + 1).drop_last() =~= devs@.take(i as int));
        let slot = first_field_chars(&chars_of(devs[i].id.as_str()), '.');
        if chars_eq(&slot, &parent_slot) {
            r.push(devs[i].id.clone());
            assert(crate::text::string_views(r@) =~= slot_functions(devs@.take(i + 1), parent@));
        }
        i = i + 1;
    }
    assert(devs@.take(i as int) =~= devs@);
    r
}

/// The switchable graphics of a system: its display controllers by vendor.
#[derive(Debug)]
pub struct Graphics {
    pub amd: Vec<GraphicsDevice>,
    pub intel: Vec<GraphicsDevice>,
    pub nvidia: Vec<GraphicsDevice>,
    pub other: Vec<GraphicsDevice>,
}

/// The graphics can be switched: not a desktop, and an NVIDIA GPU beside an Intel or AMD
/// one.
pub open spec fn switchable(g: Graphics, is_desktop: bool) -> bool {
    !is_desktop && g.nvidia@.len() > 0 && (g.intel@.len() > 0 || g.amd@.len() > 0)
}

/// The models whose external displays are wired to the NVIDIA GPU.
pub open spec fn external_display_requires_nvidia(model: Seq<char>) -> bool {
    ||| model == "addw1"@
    ||| model == "addw2"@
    ||| model == "addw3"@
    ||| model == "addw4"@
    ||| model == "addw5"@
    ||| model == "bonw15"@
    ||| model == "bonw15-b"@
    ||| model == "bonw16"@
    ||| model == "gaze14"@
    ||| model == "gaze15"@
    ||| model == "gaze16-3050"@
    ||| model == "gaze16-3060"@
    ||| model == "gaze16-3060-b"@
    ||| model == "gaze17-3050"@
    ||| model == "gaze17-3060-b"@
    ||| model == "gaze20"@
    ||| model == "kudu6"@
    ||| model == "oryp4"@
    ||| model == "oryp4-b"@
    ||| model == "oryp5"@
    ||| model == "oryp6"@
    ||| model == "oryp7"@
    ||| model == "oryp8"@
    ||| model == "oryp9"@
    ||| model == "oryp10"@
    ||| model == "oryp11"@
    ||| model == "oryp12"@
    ||| model == "serw13"@
    ||| model == "serw14"@
}

fn requires_nvidia(m: &Vec<char>) -> (b: bool)
    ensures
        b == external_display_requires_nvidia(m@),
{
    eq_lit(m, "addw1") || eq_lit(m, "addw2") || eq_lit(m, "addw3") || eq_lit(m, "addw4") || eq_lit(m, "addw5") || eq_lit(m,
        "bonw15",
    ) || eq_lit(m, "bonw15-b") || eq_lit(m, "bonw16") || eq_lit(m, "gaze14") || eq_lit(m, "gaze15") || eq_lit(m,
        "gaze16-3050",
    ) || eq_lit(m, "gaze16-3060") || eq_lit(m, "gaze16-3060-b") || eq_lit(m, "gaze17-3050") || eq_lit(m,
        "gaze17-3060-b",
    ) || eq_lit(m, "gaze20") || eq_lit(m, "kudu6") || eq_lit(m, "oryp4") || eq_lit(m, "oryp4-b") || eq_lit(m, "oryp5")
        || eq_lit(m, "oryp6") || eq_lit(m, "oryp7") || eq_lit(m, "oryp8") || eq_lit(m, "oryp9") || eq_lit(m, "oryp10")
        || eq_lit(m, "oryp11") || eq_lit(m, "oryp12") || eq_lit(m, "serw13") || eq_lit(m, "serw14")
}

/// The chassis type of a desktop.
pub fn is_desktop_chassis(chassis: &str) -> (b: bool)
    ensures
        b == (trim(chassis@) == "3"@),
{
    eq_lit(&trim_chars(&chars_of(chassis)), "3")
}

/// The mode a system defaults to: discrete off System76 hardware or on the models that
/// default to it, else hybrid when the GPU supports runtime power management, else
/// integrated.
pub open spec fn default_mode(vendor: Seq<char>, product: Seq<char>, runtimepm: bool) -> GraphicsMode {
    if trim(vendor) != "System76"@ || trim(product) == "bonw16"@ {
        GraphicsMode::Discrete
    } else if runtimepm {
        GraphicsMode::Hybrid
    } else {
        GraphicsMode::Integrated
    }
}

/// The default mode never computes only on the NVIDIA GPU; hybrid needs a GPU with
/// runtime power management, and integrated is only chosen on System76 hardware without
/// it; other vendors' machines and the models that need it default to discrete.
pub proof fn lemma_default_mode_fits(vendor: Seq<char>, product: Seq<char>, runtimepm: bool)
    ensures
        default_mode(vendor, product, runtimepm) != GraphicsMode::Compute,
        default_mode(vendor, product, runtimepm) == GraphicsMode::Hybrid ==> runtimepm,
        default_mode(vendor, product, runtimepm) == GraphicsMode::Integrated ==> !runtimepm && trim(vendor)
            == "System76"@,
        trim(vendor) != "System76"@ ==> default_mode(vendor, product, runtimepm) == GraphicsMode::Discrete,
        trim(vendor) == "System76"@ && trim(product) != "bonw16"@ ==> default_mode(vendor, product, runtimepm)
            != GraphicsMode::Discrete,
{
}

/// The mode the system is in: integrated without an NVIDIA or nouveau module loaded,
/// else by the PRIME setting (trimmed): hybrid for `on-demand`, compute for `off`, and
/// discrete otherwise or when it cannot be read.
pub open spec fn current_mode(nvidia_loaded: bool, prime: Option<Seq<char>>) -> GraphicsMode {
    if !nvidia_loaded {
        GraphicsMode::Integrated
    } else {
        match prime {
            Some(p) => if trim(p) == "on-demand"@ {
                GraphicsMode::Hybrid
            } else if trim(p) == "off"@ {
                GraphicsMode::Compute
            } else {
                GraphicsMode::Discrete
            },
            None => GraphicsMode::Discrete,
        }
    }
}

/// Reading the mode back after a switch gives the mode switched to: the PRIME setting a
/// switch writes, read with the NVIDIA driver loaded, names hybrid, compute or discrete
/// again, and integrated mode, which unloads the driver, reads as integrated.
pub proof fn lemma_switch_reads_back(vendor: GraphicsMode)
    ensures
        current_mode(vendor != GraphicsMode::Integrated, Some(prime_mode_name(vendor))) == vendor,
{
    reveal_strlit("on-demand\n");
    reveal_strlit("on\n");
    reveal_strlit("off\n");
    reveal_strlit("on-demand");
    reveal_strlit("off");
    let p = prime_mode_name(vendor);
    if vendor != GraphicsMode::Integrated {
        assert(skip_ws(p, 0) == 0);
        assert(p.subrange(0, p.len() as int) =~= p);
        assert(skip_ws_back(p, p.len() - 1) == p.len() - 1);
        assert(skip_ws_back(p, p.len() as int) == p.len() - 1);
        assert(trim(p) =~= p.subrange(0, p.len() - 1));
        assert("on-demand"@.len() != "off"@.len());
        if vendor == GraphicsMode::Hybrid {
            assert(trim(p) =~= "on-demand"@);
        } else if vendor == GraphicsMode::Compute {
            assert(trim(p) =~= "off"@);
        } else {
            assert(trim(p).len() == 2);
        }
    }
}

/// A module that means the NVIDIA driver stack is loaded.
pub fn is_nvidia_module(name: &str) -> (b: bool)
    ensures
        b == (name@ == "nouveau"@ || name@ == "nvidia"@),
{
    let n = chars_of(name);
    eq_lit(&n, "nouveau") || eq_lit(&n, "nvidia")
}

/// Bonobo WS 15 systems must not use the GC6 power state nor the suspend hooks.
pub open spec fn bonw15_hack(dmi_vendor: Seq<char>, dmi_model: Seq<char>) -> bool {
    trim(dmi_vendor) == "System76"@ && (trim(dmi_model) == "bonw15"@ || trim(dmi_model)
        == "bonw15-b"@)
}

/// The modprobe configuration written for a mode.
#[derive(Debug, Clone, Copy, PartialEq, Eq)]
pub enum ModprobeConfig {
    Nvidia,
    Hybrid,
    HybridNoGc6,
    Compute,
    ComputeNoGc6,
    Integrated,
}

/// The text of a modprobe configuration.
pub open spec fn modprobe_text(c: ModprobeConfig) -> Seq<char> {
    match c {
        ModprobeConfig::Nvidia => "# Automatically generated by system76-power\noptions nvidia-drm modeset=1\n"@,
        ModprobeConfig::Hybrid => "# Automatically generated by system76-power\nblacklist i2c_nvidia_gpu\nalias i2c_nvidia_gpu off\noptions nvidia NVreg_DynamicPowerManagement=0x02\noptions nvidia-drm modeset=1\n"@,
        ModprobeConfig::HybridNoGc6 => "# Automatically generated by system76-power\nblacklist i2c_nvidia_gpu\nalias i2c_nvidia_gpu off\noptions nvidia NVreg_DynamicPowerManagement=0x01\noptions nvidia-drm modeset=1\n"@,
        ModprobeConfig::Compute => "# Automatically generated by system76-power\nblacklist i2c_nvidia_gpu\nblacklist nvidia-drm\nblacklist nvidia-modeset\nalias i2c_nvidia_gpu off\nalias nvidia-drm off\nalias nvidia-modeset off\noptions nvidia NVreg_DynamicPowerManagement=0x02\n"@,
        ModprobeConfig::ComputeNoGc6 => "# Automatically generated by system76-power\nblacklist i2c_nvidia_gpu\nblacklist nvidia-drm\nblacklist nvidia-modeset\nalias i2c_nvidia_gpu off\nalias nvidia-drm off\nalias nvidia-modeset off\noptions nvidia NVreg_DynamicPowerManagement=0x01\n"@,
        ModprobeConfig::Integrated => "# Automatically generated by system76-power\nblacklist i2c_nvidia_gpu\nblacklist nouveau\nblacklist nvidia\nblacklist nvidia-drm\nblacklist nvidia-modeset\nalias i2c_nvidia_gpu off\nalias nouveau off\nalias nvidia off\nalias nvidia-drm off\nalias nvidia-modeset off\n"@,
    }
}

impl ModprobeConfig {
    pub fn text(self) -> (s: &'static str)
        ensures
            s@ == modprobe_text(self),
    {
        match self {
            ModprobeConfig::Nvidia => "# Automatically generated by system76-power\noptions nvidia-drm modeset=1\n",
            ModprobeConfig::Hybrid => "# Automatically generated by system76-power\nblacklist i2c_nvidia_gpu\nalias i2c_nvidia_gpu off\noptions nvidia NVreg_DynamicPowerManagement=0x02\noptions nvidia-drm modeset=1\n",
            ModprobeConfig::HybridNoGc6 => "# Automatically generated by system76-power\nblacklist i2c_nvidia_gpu\nalias i2c_nvidia_gpu off\noptions nvidia NVreg_DynamicPowerManagement=0x01\noptions nvidia-drm modeset=1\n",
            ModprobeConfig::Compute => "# Automatically generated by system76-power\nblacklist i2c_nvidia_gpu\nblacklist nvidia-drm\nblacklist nvidia-modeset\nalias i2c_nvidia_gpu off\nalias nvidia-drm off\nalias nvidia-modeset off\noptions nvidia NVreg_DynamicPowerManagement=0x02\n",
            ModprobeConfig::ComputeNoGc6 => "# Automatically generated by system76-power\nblacklist i2c_nvidia_gpu\nblacklist nvidia-drm\nblacklist nvidia-modeset\nalias i2c_nvidia_gpu off\nalias nvidia-drm off\nalias nvidia-modeset off\noptions nvidia NVreg_DynamicPowerManagement=0x01\n",
            ModprobeConfig::Integrated => "# Automatically generated by system76-power\nblacklist i2c_nvidia_gpu\nblacklist nouveau\nblacklist nvidia\nblacklist nvidia-drm\nblacklist nvidia-modeset\nalias i2c_nvidia_gpu off\nalias nouveau off\nalias nvidia off\nalias nvidia-drm off\nalias nvidia-modeset off\n",
        }
    }
}

/// How the NVIDIA driver keeps video memory through suspend.
#[derive(Debug, Clone, Copy, PartialEq, Eq)]
pub enum SleepConfig {
    /// Systems that cannot use other sleep options.
    Empty,
    /// Systems using S0ix must enable S0ix-based power management.
    S0ix,
    /// Systems using S3 had suspend issues with WebRender.
    S3,
}

/// The text of a sleep configuration.
pub open spec fn sleep_text(c: SleepConfig) -> Seq<char> {
    match c {
        SleepConfig::Empty => ""@,
        SleepConfig::S0ix => "# Preserve video memory through suspend\noptions nvidia NVreg_EnableS0ixPowerManagement=1\n"@,
        SleepConfig::S3 => "# Preserve video memory through suspend\noptions nvidia NVreg_PreserveVideoMemoryAllocations=1\n"@,
    }
}

impl SleepConfig {
    pub fn text(self) -> (s: &'static str)
        ensures
            s@ == sleep_text(self),
    {
        match self {
            SleepConfig::Empty => "",
            SleepConfig::S0ix => "# Preserve video memory through suspend\noptions nvidia NVreg_EnableS0ixPowerManagement=1\n",
            SleepConfig::S3 => "# Preserve video memory through suspend\noptions nvidia NVreg_PreserveVideoMemoryAllocations=1\n",
        }
    }
}

/// The X server configuration that makes the NVIDIA GPU primary.
pub fn xorg_conf_discrete() -> (s: &'static str)
    ensures
        s@ == "# Automatically generated by system76-power\nSection \"OutputClass\"\n    Identifier \"NVIDIA\"\n    MatchDriver \"nvidia-drm\"\n    Driver \"nvidia\"\n    Option \"PrimaryGPU\" \"Yes\"\n    ModulePath \"/lib/x86_64-linux-gnu/nvidia/xorg\"\nEndSection\n"@,
{
    "# Automatically generated by system76-power\nSection \"OutputClass\"\n    Identifier \"NVIDIA\"\n    MatchDriver \"nvidia-drm\"\n    Driver \"nvidia\"\n    Option \"PrimaryGPU\" \"Yes\"\n    ModulePath \"/lib/x86_64-linux-gnu/nvidia/xorg\"\nEndSection\n"
}

/// What switching to a mode writes: the PRIME setting, the modprobe configuration, for a
/// mode with the NVIDIA GPU active the sleep configuration and whether to enable the
/// NVIDIA suspend services, whether the X server configuration is written (else it is
/// removed), and whether to enable the NVIDIA fallback service.
#[derive(Debug, Clone, Copy, PartialEq, Eq)]
pub struct VendorPlan {
    pub prime_mode: &'static str,
    pub modprobe: ModprobeConfig,
    pub sleep: Option<(SleepConfig, bool)>,
    pub write_xorg_conf: bool,
    pub enable_fallback: bool,
}

pub open spec fn prime_mode_name(vendor: GraphicsMode) -> Seq<char> {
    match vendor {
        GraphicsMode::Hybrid => "on-demand\n"@,
        GraphicsMode::Discrete => "on\n"@,
        _ => "off\n"@,
    }
}

pub open spec fn modprobe_for(vendor: GraphicsMode, hack: bool) -> ModprobeConfig {
    match vendor {
        GraphicsMode::Integrated => ModprobeConfig::Integrated,
        GraphicsMode::Compute => if hack {
            ModprobeConfig::ComputeNoGc6
        } else {
            ModprobeConfig::Compute
        },
        GraphicsMode::Hybrid => if hack {
            ModprobeConfig::HybridNoGc6
        } else {
            ModprobeConfig::Hybrid
        },
        GraphicsMode::Discrete => ModprobeConfig::Nvidia,
    }
}

/// The integrated configuration blacklists the NVIDIA driver and nouveau.
proof fn lemma_integrated_text()
    ensures
        contains(modprobe_text(ModprobeConfig::Integrated), "blacklist nvidia\n"@),
        contains(modprobe_text(ModprobeConfig::Integrated), "blacklist nouveau\n"@),
{
    reveal_strlit("# Automatically generated by system76-power\nblacklist i2c_nvidia_gpu\nblacklist nouveau\nblacklist nvidia\nblacklist nvidia-drm\nblacklist nvidia-modeset\nalias i2c_nvidia_gpu off\nalias nouveau off\nalias nvidia off\nalias nvidia-drm off\nalias nvidia-modeset off\n");
    reveal_strlit("blacklist nvidia\n");
    assert(modprobe_text(ModprobeConfig::Integrated).subrange(87, 104) =~= "blacklist nvidia\n"@);
    assert(occurs_at(modprobe_text(ModprobeConfig::Integrated), "blacklist nvidia\n"@, 87));
    reveal_strlit("# Automatically generated by system76-power\nblacklist i2c_nvidia_gpu\nblacklist nouveau\nblacklist nvidia\nblacklist nvidia-drm\nblacklist nvidia-modeset\nalias i2c_nvidia_gpu off\nalias nouveau off\nalias nvidia off\nalias nvidia-drm off\nalias nvidia-modeset off\n");
    reveal_strlit("blacklist nouveau\n");
    assert(modprobe_text(ModprobeConfig::Integrated).subrange(69, 87) =~= "blacklist nouveau\n"@);
    assert(occurs_at(modprobe_text(ModprobeConfig::Integrated), "blacklist nouveau\n"@, 69));
}

/// The compute configuration keeps the NVIDIA display modules out and lets the GPU
/// power down (GC6).
proof fn lemma_compute_text()
    ensures
        contains(modprobe_text(ModprobeConfig::Compute), "blacklist nvidia-drm\n"@),
        contains(modprobe_text(ModprobeConfig::Compute), "DynamicPowerManagement=0x02"@),
{
    reveal_strlit("# Automatically generated by system76-power\nblacklist i2c_nvidia_gpu\nblacklist nvidia-drm\nblacklist nvidia-modeset\nalias i2c_nvidia_gpu off\nalias nvidia-drm off\nalias nvidia-modeset off\noptions nvidia NVreg_DynamicPowerManagement=0x02\n");
    reveal_strlit("blacklist nvidia-drm\n");
    assert(modprobe_text(ModprobeConfig::Compute).subrange(69, 90) =~= "blacklist nvidia-drm\n"@);
    assert(occurs_at(modprobe_text(ModprobeConfig::Compute), "blacklist nvidia-drm\n"@, 69));
    reveal_strlit("# Automatically generated by system76-power\nblacklist i2c_nvidia_gpu\nblacklist nvidia-drm\nblacklist nvidia-modeset\nalias i2c_nvidia_gpu off\nalias nvidia-drm off\nalias nvidia-modeset off\noptions nvidia NVreg_DynamicPowerManagement=0x02\n");
    reveal_strlit("DynamicPowerManagement=0x02");
    assert(modprobe_text(ModprobeConfig::Compute).subrange(207, 234) =~= "DynamicPowerManagement=0x02"@);
    assert(occurs_at(modprobe_text(ModprobeConfig::Compute), "DynamicPowerManagement=0x02"@, 207));
}

/// The compute configuration without GC6 keeps the display modules out and only
/// coarse-grained power management.
proof fn lemma_compute_no_gc6_text()
    ensures
        contains(modprobe_text(ModprobeConfig::ComputeNoGc6), "blacklist nvidia-drm\n"@),
        contains(modprobe_text(ModprobeConfig::ComputeNoGc6), "DynamicPowerManagement=0x01"@),
{
    reveal_strlit("# Automatically generated by system76-power\nblacklist i2c_nvidia_gpu\nblacklist nvidia-drm\nblacklist nvidia-modeset\nalias i2c_nvidia_gpu off\nalias nvidia-drm off\nalias nvidia-modeset off\noptions nvidia NVreg_DynamicPowerManagement=0x01\n");
    reveal_strlit("blacklist nvidia-drm\n");
    assert(modprobe_text(ModprobeConfig::ComputeNoGc6).subrange(69, 90) =~= "blacklist nvidia-drm\n"@);
    assert(occurs_at(modprobe_text(ModprobeConfig::ComputeNoGc6), "blacklist nvidia-drm\n"@, 69));
    reveal_strlit("# Automatically generated by system76-power\nblacklist i2c_nvidia_gpu\nblacklist nvidia-drm\nblacklist nvidia-modeset\nalias i2c_nvidia_gpu off\nalias nvidia-drm off\nalias nvidia-modeset off\noptions nvidia NVreg_DynamicPowerManagement=0x01\n");
    reveal_strlit("DynamicPowerManagement=0x01");
    assert(modprobe_text(ModprobeConfig::ComputeNoGc6).subrange(207, 234) =~= "DynamicPowerManagement=0x01"@);
    assert(occurs_at(modprobe_text(ModprobeConfig::ComputeNoGc6), "DynamicPowerManagement=0x01"@, 207));
}

/// The hybrid configuration loads the driver with modesetting and fine-grained power
/// management.
proof fn lemma_hybrid_text()
    ensures
        contains(modprobe_text(ModprobeConfig::Hybrid), "options nvidia-drm modeset=1\n"@),
        contains(modprobe_text(ModprobeConfig::Hybrid), "DynamicPowerManagement=0x02"@),
{
    reveal_strlit("# Automatically generated by system76-power\nblacklist i2c_nvidia_gpu\nalias i2c_nvidia_gpu off\noptions nvidia NVreg_DynamicPowerManagement=0x02\noptions nvidia-drm modeset=1\n");
    reveal_strlit("options nvidia-drm modeset=1\n");
    assert(modprobe_text(ModprobeConfig::Hybrid).subrange(143, 172) =~= "options nvidia-drm modeset=1\n"@);
    assert(occurs_at(modprobe_text(ModprobeConfig::Hybrid), "options nvidia-drm modeset=1\n"@, 143));
    reveal_strlit("# Automatically generated by system76-power\nblacklist i2c_nvidia_gpu\nalias i2c_nvidia_gpu off\noptions nvidia NVreg_DynamicPowerManagement=0x02\noptions nvidia-drm modeset=1\n");
    reveal_strlit("DynamicPowerManagement=0x02");
    assert(modprobe_text(ModprobeConfig::Hybrid).subrange(115, 142) =~= "DynamicPowerManagement=0x02"@);
    assert(occurs_at(modprobe_text(ModprobeConfig::Hybrid), "DynamicPowerManagement=0x02"@, 115));
}

/// The hybrid configuration without GC6 loads the driver with modesetting and coarse
/// power management.
proof fn lemma_hybrid_no_gc6_text()
    ensures
        contains(modprobe_text(ModprobeConfig::HybridNoGc6), "options nvidia-drm modeset=1\n"@),
        contains(modprobe_text(ModprobeConfig::HybridNoGc6), "DynamicPowerManagement=0x01"@),
{
    reveal_strlit("# Automatically generated by system76-power\nblacklist i2c_nvidia_gpu\nalias i2c_nvidia_gpu off\noptions nvidia NVreg_DynamicPowerManagement=0x01\noptions nvidia-drm modeset=1\n");
    reveal_strlit("options nvidia-drm modeset=1\n");
    assert(modprobe_text(ModprobeConfig::HybridNoGc6).subrange(143, 172) =~= "options nvidia-drm modeset=1\n"@);
    assert(occurs_at(modprobe_text(ModprobeConfig::HybridNoGc6), "options nvidia-drm modeset=1\n"@, 143));
    reveal_strlit("# Automatically generated by system76-power\nblacklist i2c_nvidia_gpu\nalias i2c_nvidia_gpu off\noptions nvidia NVreg_DynamicPowerManagement=0x01\noptions nvidia-drm modeset=1\n");
    reveal_strlit("DynamicPowerManagement=0x01");
    assert(modprobe_text(ModprobeConfig::HybridNoGc6).subrange(115, 142) =~= "DynamicPowerManagement=0x01"@);
    assert(occurs_at(modprobe_text(ModprobeConfig::HybridNoGc6), "DynamicPowerManagement=0x01"@, 115));
}

/// The discrete configuration is the header followed directly by the modesetting option.
proof fn lemma_nvidia_text()
    ensures
        contains(modprobe_text(ModprobeConfig::Nvidia), "options nvidia-drm modeset=1\n"@),
        contains(modprobe_text(ModprobeConfig::Nvidia), "power\noptions nvidia-drm modeset=1\n"@),
{
    reveal_strlit("# Automatically generated by system76-power\noptions nvidia-drm modeset=1\n");
    reveal_strlit("power\noptions nvidia-drm modeset=1\n");
    assert(modprobe_text(ModprobeConfig::Nvidia).subrange(38, 73) =~= "power\noptions nvidia-drm modeset=1\n"@);
    assert(occurs_at(modprobe_text(ModprobeConfig::Nvidia), "power\noptions nvidia-drm modeset=1\n"@, 38));
    reveal_strlit("options nvidia-drm modeset=1\n");
    assert(modprobe_text(ModprobeConfig::Nvidia).subrange(44, 73) =~= "options nvidia-drm modeset=1\n"@);
    assert(occurs_at(modprobe_text(ModprobeConfig::Nvidia), "options nvidia-drm modeset=1\n"@, 44));
}
/// What each mode's modprobe configuration does: integrated blacklists the NVIDIA driver
/// and nouveau; compute blacklists the NVIDIA display module, hybrid and discrete load it
/// with modesetting; compute and hybrid let the GPU power down, with fine-grained power
/// management (`0x02`) except on the Bonobo WS 15, which gets the coarse one (`0x01`);
/// discrete adds nothing between the header and the modesetting option.
pub proof fn lemma_modprobe_follows_mode(vendor: GraphicsMode, hack: bool)
    ensures
        vendor == GraphicsMode::Integrated ==> contains(modprobe_text(modprobe_for(vendor, hack)), "blacklist nvidia\n"@)
            && contains(modprobe_text(modprobe_for(vendor, hack)), "blacklist nouveau\n"@),
        vendor == GraphicsMode::Compute ==> contains(modprobe_text(modprobe_for(vendor, hack)), "blacklist nvidia-drm\n"@),
        (vendor == GraphicsMode::Hybrid || vendor == GraphicsMode::Discrete) ==> contains(
            modprobe_text(modprobe_for(vendor, hack)),
            "options nvidia-drm modeset=1\n"@,
        ),
        (vendor == GraphicsMode::Hybrid || vendor == GraphicsMode::Compute) && !hack ==> contains(
            modprobe_text(modprobe_for(vendor, hack)),
            "DynamicPowerManagement=0x02"@,
        ),
        (vendor == GraphicsMode::Hybrid || vendor == GraphicsMode::Compute) && hack ==> contains(
            modprobe_text(modprobe_for(vendor, hack)),
            "DynamicPowerManagement=0x01"@,
        ),
        vendor == GraphicsMode::Discrete ==> contains(
            modprobe_text(modprobe_for(vendor, hack)),
            "power\noptions nvidia-drm modeset=1\n"@,
        ),
{
    lemma_integrated_text();
    lemma_compute_text();
    lemma_compute_no_gc6_text();
    lemma_hybrid_text();
    lemma_hybrid_no_gc6_text();
    lemma_nvidia_text();
}

/// The sleep configuration: none for integrated; for the bonw15 the empty one with the
/// suspend services disabled; else S0ix when `mem_sleep` selects `[s2idle]`, else S3,
/// with the services enabled.
pub open spec fn sleep_for(vendor: GraphicsMode, hack: bool, mem_sleep: Seq<char>) -> Option<(SleepConfig, bool)> {
    if vendor == GraphicsMode::Integrated {
        None
    } else if hack {
        Some((SleepConfig::Empty, false))
    } else if contains(mem_sleep, "[s2idle]"@) {
        Some((SleepConfig::S0ix, true))
    } else {
        Some((SleepConfig::S3, true))
    }
}

/// What else a switch sets up for the mode: PRIME renders on the NVIDIA GPU (`on`) only
/// in discrete mode and offloads on demand only in hybrid mode, else it is `off`; video
/// memory is preserved through suspend for every mode that loads the NVIDIA driver and
/// never in integrated mode; the Bonobo WS 15 gets no sleep options and no suspend
/// services; elsewhere the services are enabled, with S0ix power management exactly
/// when the kernel sleeps in `s2idle`.
pub proof fn lemma_switch_follows_mode(vendor: GraphicsMode, hack: bool, mem_sleep: Seq<char>)
    ensures
        (prime_mode_name(vendor) == "on\n"@) <==> vendor == GraphicsMode::Discrete,
        (prime_mode_name(vendor) == "on-demand\n"@) <==> vendor == GraphicsMode::Hybrid,
        (prime_mode_name(vendor) == "off\n"@) <==> (vendor == GraphicsMode::Integrated || vendor
            == GraphicsMode::Compute),
        (sleep_for(vendor, hack, mem_sleep) is None) <==> vendor == GraphicsMode::Integrated,
        vendor != GraphicsMode::Integrated && hack ==> sleep_for(vendor, hack, mem_sleep) == Some(
            (SleepConfig::Empty, false),
        ),
        vendor != GraphicsMode::Integrated && !hack ==> sleep_for(vendor, hack, mem_sleep) == Some(
            (
                if contains(mem_sleep, "[s2idle]"@) {
                    SleepConfig::S0ix
                } else {
                    SleepConfig::S3
                },
                true,
            ),
        ),
{
    reveal_strlit("on\n");
    reveal_strlit("on-demand\n");
    reveal_strlit("off\n");
    assert("on\n"@.len() != "on-demand\n"@.len());
    assert("on\n"@[1] != "off\n"@[1]);
    assert("on-demand\n"@.len() != "off\n"@.len());
}


/// The display managers looked for, in order.
pub fn display_managers() -> (dms: Vec<&'static str>)
    ensures
        dms@.len() == 4,
        dms@[0]@ == "gdm"@,
        dms@[1]@ == "gdm3"@,
        dms@[2]@ == "sddm"@,
        dms@[3]@ == "lightdm"@,
{
    let mut v: Vec<&'static str> = Vec::new();
    v.push("gdm");
    v.push("gdm3");
    v.push("sddm");
    v.push("lightdm");
    v
}

/// The NVIDIA daemons that hold the driver open.
pub fn nvidia_daemons() -> (d: Vec<&'static str>)
    ensures
        d@.len() == 2,
        d@[0]@ == "nvidia-powerd"@,
        d@[1]@ == "nvidia-persistenced"@,
{
    let mut v: Vec<&'static str> = Vec::new();
    v.push("nvidia-powerd");
    v.push("nvidia-persistenced");
    v
}

/// The NVIDIA modules, in the order they are unloaded: the reverse of their dependencies.
pub fn nvidia_modules_unload_order() -> (m: Vec<&'static str>)
    ensures
        m@.len() == 4,
        m@[0]@ == "nvidia-drm"@,
        m@[1]@ == "nvidia-modeset"@,
        m@[2]@ == "nvidia_uvm"@,
        m@[3]@ == "nvidia"@,
{
    let mut v: Vec<&'static str> = Vec::new();
    v.push("nvidia-drm");
    v.push("nvidia-modeset");
    v.push("nvidia_uvm");
    v.push("nvidia");
    v
}

/// The modules to load for a mode, each with its options, in load order: none for
/// integrated, the core driver for compute, and the core, modeset and DRM drivers, DRM
/// with `modeset=1`, for hybrid and discrete.
pub fn load_modules_for_mode(vendor: GraphicsMode) -> (m: Vec<(&'static str, Option<&'static str>)>)
    ensures
        vendor == GraphicsMode::Integrated ==> m@.len() == 0,
        vendor == GraphicsMode::Compute ==> m@.len() == 1 && m@[0].0@ == "nvidia"@ && m@[0].1 is None,
        (vendor == GraphicsMode::Hybrid || vendor == GraphicsMode::Discrete) ==> m@.len() == 3
            && m@[0].0@ == "nvidia"@ && m@[0].1 is None && m@[1].0@ == "nvidia-modeset"@ && m@[1].1 is None
            && m@[2].0@ == "nvidia-drm"@ && (m@[2].1 matches Some(o) && o@ == "modeset=1"@),
{
    let mut v: Vec<(&'static str, Option<&'static str>)> = Vec::new();
    match vendor {
        GraphicsMode::Integrated => {},
        GraphicsMode::Compute => {
            v.push(("nvidia", None));
        },
        GraphicsMode::Hybrid | GraphicsMode::Discrete => {
            v.push(("nvidia", None));
            v.push(("nvidia-modeset", None));
            v.push(("nvidia-drm", Some("modeset=1")));
        },
    }
    v
}

/// The value written to the GPU's `power/control`: always on for discrete graphics, else
/// automatic.
pub fn power_control_value(mode: GraphicsMode) -> (s: &'static str)
    ensures
        s@ == (if mode == GraphicsMode::Discrete {
            "on\n"@
        } else {
            "auto\n"@
        }),
{
    if mode == GraphicsMode::Discrete {
        "on\n"
    } else {
        "auto\n"
    }
}

/// The `power/control` file of PCI device `pciid`.
pub fn power_control_path(pciid: &str) -> (p: String)
    ensures
        p@ == "/sys/bus/pci/devices/"@ + pciid@ + "/power/control"@,
{
    let mut v = chars_of("/sys/bus/pci/devices/");
    crate::text::push_str(&mut v, pciid);
    crate::text::push_str(&mut v, "/power/control");
    string_of(&v)
}

/// The device id of an entry of the NVIDIA driver's list of supported GPUs: its hex
/// digits after any leading `0x`, 0 when they do not read as a 16-bit number.
pub open spec fn nvidia_devid(devid: Seq<char>) -> u16 {
    match parse_unsigned(trim(trim_start_matches(devid, "0x"@)), 16, u16::MAX as int) {
        Some(v) => v as u16,
        None => 0,
    }
}

pub fn parse_nvidia_devid(devid: &str) -> (d: u16)
    ensures
        d == nvidia_devid(devid@),
{
    let s = trim_chars(&trim_start_matches_chars(&chars_of(devid), &chars_of("0x")));
    let r = parse_unsigned_chars(&s, 16, u16::MAX as u64);
    proof {
        let d = if s@.len() > 0 && s@[0] == '+' {
            s@.drop_first()
        } else {
            s@
        };
        if parse_unsigned(s@, 16, u16::MAX as int) is Some {
            crate::text::lemma_digits_value_nonneg(d, 16);
        }
    }
    match r {
        Some(v) => v as u16,
        None => 0,
    }
}

/// The first entry of the supported GPU list with device id `id`.
pub fn find_nvidia_device(devids: &Vec<String>, id: u16) -> (r: Option<usize>)
    ensures
        match r {
            Some(i) => i < devids@.len() && nvidia_devid(devids@[i as int]@) == id && forall|j: int|
                0 <= j < i ==> nvidia_devid(devids@[j]@) != id,
            None => forall|j: int| 0 <= j < devids@.len() ==> nvidia_devid(devids@[j]@) != id,
        },
{
    let mut i: usize = 0;
    while i < devids.len()
        invariant
            i <= devids@.len(),
            forall|j: int| 0 <= j < i ==> nvidia_devid(devids@[j]@) != id,
        decreases devids@.len() - i,
    {
        if parse_nvidia_devid(devids[i].as_str()) == id {
            return Some(i);
        }
        i = i + 1;
    }
    None
}

/// Whether the features of a GPU include runtime power management.
pub fn supports_runtimepm(features: &Vec<String>) -> (b: bool)
    ensures
        b == exists|i: int| 0 <= i < features@.len() && features@[i]@ == "runtimepm"@,
{
    let mut i: usize = 0;
    while i < features.len()
        invariant
            i <= features@.len(),
            forall|j: int| 0 <= j < i ==> features@[j]@ != "runtimepm"@,
        decreases features@.len() - i,
    {
        if eq_lit(&chars_of(features[i].as_str()), "runtimepm") {
            return true;
        }
        i = i + 1;
    }
    false
}

/// The list of supported GPUs is only read when exactly one NVIDIA driver is installed.
pub fn check_single_driver(found: usize) -> (r: Result<(), GraphicsDeviceError>)
    ensures
        r is Ok <==> found == 1,
        r matches Err(GraphicsDeviceError::Json(m)) ==> m@ == "NVIDIA drivers misconfigured"@,
        r is Err ==> r matches Err(GraphicsDeviceError::Json(_)),
{
    if found != 1 {
        Err(GraphicsDeviceError::Json(string_of(&chars_of("NVIDIA drivers misconfigured"))))
    } else {
        Ok(())
    }
}

impl Graphics {
    /// Sorts the display controllers among `devs` by vendor, each with the functions of
    /// its slot.
    pub fn new(devs: &Vec<PciInfo>) -> (g: Self)
        ensures
            lists_devices(g.amd@, devs@, GpuVendor::Amd),
            lists_devices(g.intel@, devs@, GpuVendor::Intel),
            lists_devices(g.nvidia@, devs@, GpuVendor::Nvidia),
            lists_devices(g.other@, devs@, GpuVendor::Other),
    {
        let mut amd: Vec<GraphicsDevice> = Vec::new();
        let mut intel: Vec<GraphicsDevice> = Vec::new();
        let mut nvidia: Vec<GraphicsDevice> = Vec::new();
        let mut other: Vec<GraphicsDevice> = Vec::new();
        let mut i: usize = 0;
        while i < devs.len()
            invariant
                i <= devs@.len(),
                lists_prefix(amd@, devs@, i as int, GpuVendor::Amd),
                lists_prefix(intel@, devs@, i as int, GpuVendor::Intel),
                lists_prefix(nvidia@, devs@, i as int, GpuVendor::Nvidia),
                lists_prefix(other@, devs@, i as int, GpuVendor::Other),
            decreases devs@.len() - i,
        {
            let ghost p = devs@.take(i + 1);
            assert(p.drop_last() =~= devs@.take(i as int));
            assert(p.last() == devs@[i as int]);
            let d = &devs[i];
            match classify_pci_device(d.class, d.vendor) {
                Some(kind) => {
                    let dev = GraphicsDevice::new(d.id.clone(), d.device, functions_for(devs, &d.id));
                    match kind {
                        GpuVendor::Amd => {
                            amd.push(dev);
                        },
                        GpuVendor::Nvidia => {
                            nvidia.push(dev);
                        },
                        GpuVendor::Intel => {
                            intel.push(dev);
                        },
                        GpuVendor::Other => {
                            other.push(dev);
                        },
                    }
                },
                None => {},
            }
            i = i + 1;
        }
        assert(devs@.take(i as int) =~= devs@);
        Graphics { amd, intel, nvidia, other }
    }

    pub fn can_switch(&self, is_desktop: bool) -> (b: bool)
        ensures
            b == switchable(*self, is_desktop),
    {
        !is_desktop && (self.nvidia.len() > 0 && (self.intel.len() > 0 || self.amd.len() > 0))
    }

    pub fn switchable_or_fail(&self, is_desktop: bool) -> (r: Result<(), GraphicsDeviceError>)
        ensures
            r is Ok <==> switchable(*self, is_desktop),
            r is Err ==> r matches Err(GraphicsDeviceError::NotSwitchable),
    {
        if self.can_switch(is_desktop) {
            Ok(())
        } else {
            Err(GraphicsDeviceError::NotSwitchable)
        }
    }

    /// Whether external displays need the NVIDIA GPU on this model; `model` is the
    /// product version.
    pub fn get_external_displays_require_dgpu(&self, is_desktop: bool, model: &str) -> (r: Result<
        bool,
        GraphicsDeviceError,
    >)
        ensures
            r is Ok <==> switchable(*self, is_desktop),
            r matches Ok(b) ==> b == external_display_requires_nvidia(trim(model@)),
            r is Err ==> r matches Err(GraphicsDeviceError::NotSwitchable),
    {
        self.switchable_or_fail(is_desktop)?;
        Ok(requires_nvidia(&trim_chars(&chars_of(model))))
    }

    /// The mode this system defaults to.
    pub fn get_default_graphics(
        &self,
        is_desktop: bool,
        vendor: &str,
        product: &str,
        runtimepm: bool,
    ) -> (r: Result<GraphicsMode, GraphicsDeviceError>)
        ensures
            r is Ok <==> switchable(*self, is_desktop),
            r matches Ok(m) ==> m == default_mode(vendor@, product@, runtimepm),
            r is Err ==> r matches Err(GraphicsDeviceError::NotSwitchable),
    {
        self.switchable_or_fail(is_desktop)?;
        let v = trim_chars(&chars_of(vendor));
        let p = trim_chars(&chars_of(product));
        if !eq_lit(&v, "System76") || eq_lit(&p, "bonw16") {
            Ok(GraphicsMode::Discrete)
        } else if runtimepm {
            Ok(GraphicsMode::Hybrid)
        } else {
            Ok(GraphicsMode::Integrated)
        }
    }

    /// The mode the system is in, from whether an NVIDIA module is loaded and the PRIME
    /// setting (`None` when it cannot be read).
    pub fn get_vendor(nvidia_loaded: bool, prime: Option<&str>) -> (m: GraphicsMode)
        ensures
            m == current_mode(
                nvidia_loaded,
                match prime {
                    Some(p) => Some(p@),
                    None => None,
                },
            ),
    {
        if !nvidia_loaded {
            return GraphicsMode::Integrated;
        }
        match prime {
            Some(p) => {
                let t = trim_chars(&chars_of(p));
                if eq_lit(&t, "on-demand") {
                    GraphicsMode::Hybrid
                } else if eq_lit(&t, "off") {
                    GraphicsMode::Compute
                } else {
                    GraphicsMode::Discrete
                }
            },
            None => GraphicsMode::Discrete,
        }
    }

    /// What switching to `vendor` writes, given the DMI vendor and model and the kernel's
    /// `mem_sleep`.
    pub fn set_vendor(
        &self,
        is_desktop: bool,
        vendor: GraphicsMode,
        dmi_vendor: &str,
        dmi_model: &str,
        mem_sleep: &str,
    ) -> (r: Result<VendorPlan, GraphicsDeviceError>)
        ensures
            r is Ok <==> switchable(*self, is_desktop),
            r is Err ==> r matches Err(GraphicsDeviceError::NotSwitchable),
            r matches Ok(p) ==> {
                let hack = bonw15_hack(dmi_vendor@, dmi_model@);
                &&& p.prime_mode@ == prime_mode_name(vendor)
                &&& p.modprobe == modprobe_for(vendor, hack)
                &&& p.sleep == sleep_for(vendor, hack, mem_sleep@)
                &&& p.write_xorg_conf == (vendor == GraphicsMode::Discrete)
                &&& p.enable_fallback == (vendor == GraphicsMode::Discrete)
            },
            r matches Ok(p) ==> (vendor == GraphicsMode::Integrated <==> p.modprobe
                == ModprobeConfig::Integrated),
            r matches Ok(p) ==> (vendor == GraphicsMode::Integrated ==> contains(
                modprobe_text(p.modprobe),
                "blacklist nvidia\n"@,
            ) && contains(modprobe_text(p.modprobe), "blacklist nouveau\n"@)),
            r matches Ok(p) ==> (p.sleep is Some <==> vendor != GraphicsMode::Integrated),
    {
        proof {
            lemma_modprobe_follows_mode(vendor, bonw15_hack(dmi_vendor@, dmi_model@));
        }
        self.switchable_or_fail(is_desktop)?;
        let prime_mode = match vendor {
            GraphicsMode::Hybrid => "on-demand\n",
            GraphicsMode::Discrete => "on\n",
            _ => "off\n",
        };
        let dv = trim_chars(&chars_of(dmi_vendor));
        let dm = trim_chars(&chars_of(dmi_model));
        let hack = eq_lit(&dv, "System76") && (eq_lit(&dm, "bonw15") || eq_lit(&dm, "bonw15-b"));
        let modprobe = match vendor {
            GraphicsMode::Integrated => ModprobeConfig::Integrated,
            GraphicsMode::Compute => if hack {
                ModprobeConfig::ComputeNoGc6
            } else {
                ModprobeConfig::Compute
            },
            GraphicsMode::Hybrid => if hack {
                ModprobeConfig::HybridNoGc6
            } else {
                ModprobeConfig::Hybrid
            },
            GraphicsMode::Discrete => ModprobeConfig::Nvidia,
        };
        let sleep = if vendor == GraphicsMode::Integrated {
            None
        } else if hack {
            Some((SleepConfig::Empty, false))
        } else if contains_chars(&chars_of(mem_sleep), &chars_of("[s2idle]")) {
            Some((SleepConfig::S0ix, true))
        } else {
            Some((SleepConfig::S3, true))
        };
        Ok(VendorPlan {
            prime_mode,
            modprobe,
            sleep,
            write_xorg_conf: vendor == GraphicsMode::Discrete,
            enable_fallback: vendor == GraphicsMode::Discrete,
        })
    }

    /// Whether the NVIDIA GPU is powered, from whether each NVIDIA device's functions
    /// still exist.
    pub fn get_power(&self, is_desktop: bool, exists: &Vec<bool>) -> (r: Result<bool, GraphicsDeviceError>)
        ensures
            r is Ok <==> switchable(*self, is_desktop),
            r matches Ok(b) ==> b == exists@.contains(true),
            r is Err ==> r matches Err(GraphicsDeviceError::NotSwitchable),
    {
        self.switchable_or_fail(is_desktop)?;
        let mut i: usize = 0;
        while i < exists.len()
            invariant
                i <= exists@.len(),
                switchable(*self, is_desktop),
                forall|j: int| 0 <= j < i ==> !exists@[j],
            decreases exists@.len() - i,
        {
            if exists[i] {
                return Ok(true);
            }
            i = i + 1;
        }
        Ok(false)
    }

    /// Whether to power the NVIDIA GPU automatically: only off in integrated mode with a
    /// GPU that lacks runtime power management.
    pub fn auto_power(vendor: GraphicsMode, runtimepm: bool) -> (power: bool)
        ensures
            power == (vendor != GraphicsMode::Integrated || runtimepm),
    {
        vendor != GraphicsMode::Integrated || runtimepm
    }

    /// The checks of a switch at runtime: switchable graphics, and external displays that
    /// do not need the NVIDIA GPU on this model.
    pub fn switch_runtime_check(&self, is_desktop: bool, model: &str) -> (r: Result<(), GraphicsDeviceError>)
        ensures
            r is Ok <==> switchable(*self, is_desktop) && !external_display_requires_nvidia(trim(model@)),
            r is Err ==> r matches Err(GraphicsDeviceError::NotSwitchable),
    {
        if self.get_external_displays_require_dgpu(is_desktop, model)? {
            return Err(GraphicsDeviceError::NotSwitchable);
        }
        Ok(())
    }
}

/// The display manager restarted after a switch at runtime: the one that was stopped, or
/// `gdm`.
pub fn restart_display_manager(stopped: Option<&'static str>) -> (dm: &'static str)
    ensures
        dm@ == match stopped {
            Some(d) => d@,
            None => "gdm"@,
        },
{
    match stopped {
        Some(d) => d,
        None => "gdm",
    }
}

/// A switch at runtime brings the NVIDIA stack back up for every mode but integrated.
pub fn switch_brings_up(vendor: GraphicsMode) -> (b: bool)
    ensures
        b == (vendor != GraphicsMode::Integrated),
{
    vendor != GraphicsMode::Integrated
}

/// `found` is the list of the display controllers of `kind` among the first `k` devices.
pub open spec fn lists_prefix(found: Seq<GraphicsDevice>, devs: Seq<PciInfo>, k: int, kind: GpuVendor) -> bool {
    &&& found.len() == devices_of(devs.take(k), kind).len()
    &&& forall|i: int|
        0 <= i < found.len() ==> {
            &&& (#[trigger] found[i]).id@ == devices_of(devs.take(k), kind)[i].id@
            &&& found[i].devid == devices_of(devs.take(k), kind)[i].device
            &&& crate::text::string_views(found[i].functions@) == slot_functions(devs, found[i].id@)
        }
}

} // verus!
