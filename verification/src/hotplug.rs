//! Hot-plug detection: which GPIO pins report a display being plugged in on each model,
//! and the display port multiplexer some models switch between outputs.
use crate::daemon::power::{rising, rising_edges};
use crate::text::{chars_of, eq_lit, push_str, string_of, trim, trim_chars};
use vstd::prelude::*;

verus! {

/// The base address of the PCH private configuration space.
pub const PCR_BASE_ADDRESS: u64 = 0xFD00_0000;

/// A pin entry that no port is wired to.
pub const NO_PIN: u8 = 0xFF;

/// The base of the AMD FCH GPIO control registers.
pub const AMD_FCH_GPIO_CONTROL_BASE: u32 = 0xFED8_1500;

#[derive(Debug)]
pub enum HotPlugDetectError {
    ProductVersion(String),
    Sideband(String),
    VariantUnsupported { model: &'static str, variant: String },
    ModelUnsupported(String),
    SubsystemDevice { model: &'static str, why: String },
    DevMemAccess(String),
}

/// What a `HotPlugDetectError` says, the texts as characters.
pub enum HotPlugErrorView {
    ProductVersion(Seq<char>),
    Sideband(Seq<char>),
    VariantUnsupported(Seq<char>, Seq<char>),
    ModelUnsupported(Seq<char>),
    SubsystemDevice(Seq<char>, Seq<char>),
    DevMemAccess(Seq<char>),
}

impl View for HotPlugDetectError {
    type V = HotPlugErrorView;

    open spec fn view(&self) -> HotPlugErrorView {
        match self {
            HotPlugDetectError::ProductVersion(s) => HotPlugErrorView::ProductVersion(s@),
            HotPlugDetectError::Sideband(s) => HotPlugErrorView::Sideband(s@),
            HotPlugDetectError::VariantUnsupported { model, variant } => HotPlugErrorView::VariantUnsupported(model@, variant@),
            HotPlugDetectError::ModelUnsupported(s) => HotPlugErrorView::ModelUnsupported(s@),
            HotPlugDetectError::SubsystemDevice { model, why } => HotPlugErrorView::SubsystemDevice(model@, why@),
            HotPlugDetectError::DevMemAccess(s) => HotPlugErrorView::DevMemAccess(s@),
        }
    }
}

/// The message of a hot-plug detection error.
pub open spec fn hotplug_error_message(e: HotPlugErrorView) -> Seq<char> {
    match e {
        HotPlugErrorView::ProductVersion(why) => "failed to read DMI product version: "@ + why,
        HotPlugErrorView::Sideband(why) => "error constructing sideband: "@ + why,
        HotPlugErrorView::VariantUnsupported(model, variant) => model + " variant '"@ + variant
            + "' does not support hotplug detection"@,
        HotPlugErrorView::ModelUnsupported(model) => "model '"@ + model + "' does not support hotplug detection"@,
        HotPlugErrorView::SubsystemDevice(model, why) => "failed to read "@ + model + "'s subsystem device: "@ + why,
        HotPlugErrorView::DevMemAccess(why) => "failed to open /dev/mem: "@ + why,
    }
}

impl HotPlugDetectError {
    pub fn message(&self) -> (m: String)
        ensures
            m@ == hotplug_error_message(self@),
    {
        let mut t: Vec<char> = Vec::new();
        match self {
            HotPlugDetectError::ProductVersion(why) => {
                push_str(&mut t, "failed to read DMI product version: ");
                push_str(&mut t, why.as_str());
            },
            HotPlugDetectError::Sideband(why) => {
                push_str(&mut t, "error constructing sideband: ");
                push_str(&mut t, why.as_str());
            },
            HotPlugDetectError::VariantUnsupported { model, variant } => {
                push_str(&mut t, model);
                push_str(&mut t, " variant '");
                push_str(&mut t, variant.as_str());
                push_str(&mut t, "' does not support hotplug detection");
            },
            HotPlugDetectError::ModelUnsupported(model) => {
                push_str(&mut t, "model '");
                push_str(&mut t, model.as_str());
                push_str(&mut t, "' does not support hotplug detection");
            },
            HotPlugDetectError::SubsystemDevice { model, why } => {
                push_str(&mut t, "failed to read ");
                push_str(&mut t, model);
                push_str(&mut t, "'s subsystem device: ");
                push_str(&mut t, why.as_str());
            },
            HotPlugDetectError::DevMemAccess(why) => {
                push_str(&mut t, "failed to open /dev/mem: ");
                push_str(&mut t, why.as_str());
            },
        }
        assert(t@ =~= hotplug_error_message(self@));
        string_of(&t)
    }
}

/// Where a model reads its hot-plug state from.
#[derive(Debug)]
pub enum HotPlugLayout {
    /// Intel GPIO pins, read through the sideband interface at `sideband_base`, one per
    /// port (`NO_PIN` for none).
    Intel { sideband_base: u64, port: u8, pins: [u8; 4] },
    /// AMD FCH GPIO numbers, one per port.
    Amd { gpios: Vec<u32> },
}

pub enum HotPlugLayoutView {
    Intel { sideband_base: u64, port: u8, pins: Seq<u8> },
    Amd(Seq<u32>),
}

impl View for HotPlugLayout {
    type V = HotPlugLayoutView;

    open spec fn view(&self) -> HotPlugLayoutView {
        match self {
            HotPlugLayout::Intel { sideband_base, port, pins } => HotPlugLayoutView::Intel { sideband_base: *sideband_base, port: *port, pins: pins@ },
            HotPlugLayout::Amd { gpios } => HotPlugLayoutView::Amd(gpios@),
        }
    }
}

pub open spec fn result_view(r: Result<HotPlugLayout, HotPlugDetectError>) -> Result<HotPlugLayoutView, HotPlugErrorView> {
    match r {
        Ok(l) => Ok(l@),
        Err(e) => Err(e@),
    }
}

pub open spec fn opt_str_view(s: Option<&str>) -> Option<Seq<char>> {
    match s {
        Some(v) => Some(v@),
        None => None,
    }
}

/// The hot-plug layout of each supported model, from the trimmed product version. The
/// gaze14 is told apart by the PCI subsystem device of its host bridge, the gaze15 by
/// the device id of its NVIDIA GPU.
pub open spec fn layout_for(model: Seq<char>, subsystem_variant: Option<Seq<char>>, nvidia_device: Option<Seq<char>>) -> Result<HotPlugLayoutView, HotPlugErrorView> {
    let m = trim(model);
    if m == "addw1"@ || m == "addw2"@ {
        Ok(HotPlugLayout::Intel { sideband_base: PCR_BASE_ADDRESS, port: 0x6A, pins: [0x28, 0x2a, 0x2c, 0x2e] }@)
    } else if m == "addw3"@ {
        Ok(HotPlugLayout::Intel { sideband_base: 0xE000_0000, port: 0x6E, pins: [0x04, 0x08, NO_PIN, NO_PIN] }@)
    } else if m == "addw4"@ {
        Ok(HotPlugLayout::Intel { sideband_base: 0xE000_0000, port: 0x6E, pins: [0x02, 0x04, NO_PIN, NO_PIN] }@)
    } else if m == "bonw15"@ || m == "bonw15-b"@ {
        Ok(HotPlugLayout::Intel { sideband_base: 0xE000_0000, port: 0x6E, pins: [0x02, 0x06, NO_PIN, NO_PIN] }@)
    } else if m == "gaze16-3050"@ {
        Ok(HotPlugLayout::Intel { sideband_base: PCR_BASE_ADDRESS, port: 0x6A, pins: [NO_PIN, 0x58, NO_PIN, NO_PIN] }@)
    } else if m == "gaze16-3060"@ || m == "gaze16-3060-b"@ {
        Ok(HotPlugLayout::Intel { sideband_base: PCR_BASE_ADDRESS, port: 0x69, pins: [0x02, 0x04, NO_PIN, NO_PIN] }@)
    } else if m == "gaze17-3060-b"@ {
        Ok(HotPlugLayout::Intel { sideband_base: PCR_BASE_ADDRESS, port: 0x6E, pins: [0x72, 0x78, NO_PIN, NO_PIN] }@)
    } else if m == "oryp4"@ || m == "oryp4-b"@ || m == "oryp5"@ {
        Ok(HotPlugLayout::Intel { sideband_base: PCR_BASE_ADDRESS, port: 0x6A, pins: [0x28, 0x2a, 0x2c, NO_PIN] }@)
    } else if m == "oryp6"@ || m == "oryp7"@ {
        Ok(HotPlugLayout::Intel { sideband_base: PCR_BASE_ADDRESS, port: 0x6A, pins: [0x2a, 0x2c, 0x2e, NO_PIN] }@)
    } else if m == "oryp8"@ {
        Ok(HotPlugLayout::Intel { sideband_base: PCR_BASE_ADDRESS, port: 0x69, pins: [0x02, 0x04, 0x06, NO_PIN] }@)
    } else if m == "oryp9"@ || m == "oryp10"@ {
        Ok(HotPlugLayout::Intel { sideband_base: PCR_BASE_ADDRESS, port: 0x6E, pins: [0x72, 0x78, 0x7C, NO_PIN] }@)
    } else if m == "oryp11"@ {
        Ok(HotPlugLayout::Intel { sideband_base: PCR_BASE_ADDRESS, port: 0x6E, pins: [0x72, 0x78, NO_PIN, NO_PIN] }@)
    } else if m == "oryp12"@ {
        Ok(HotPlugLayout::Intel { sideband_base: 0xE000_0000, port: 0x6E, pins: [0x04, 0x08, NO_PIN, NO_PIN] }@)
    } else if m == "serw13"@ {
        Ok(HotPlugLayout::Intel { sideband_base: 0xE000_0000, port: 0x6E, pins: [0x00, NO_PIN, 0x04, 0x08] }@)
    } else if m == "gaze14"@ {
        let v = trim(match subsystem_variant { Some(v) => v, None => Seq::empty() });
        if v == "0x8550"@ || v == "0x8551"@ { Ok(HotPlugLayout::Intel { sideband_base: PCR_BASE_ADDRESS, port: 0x6A, pins: [0x2a, NO_PIN, 0x2e, NO_PIN] }@) }
        else if v == "0x8560"@ || v == "0x8561"@ { Ok(HotPlugLayout::Intel { sideband_base: PCR_BASE_ADDRESS, port: 0x6A, pins: [NO_PIN, 0x2e, NO_PIN, NO_PIN] }@) }
        else { Err(HotPlugErrorView::VariantUnsupported("gaze14"@, v)) }
    } else if m == "gaze15"@ {
        let v = trim(match nvidia_device { Some(v) => v, None => "unknown"@ });
        if v == "0x2191"@ { Ok(HotPlugLayout::Intel { sideband_base: PCR_BASE_ADDRESS, port: 0x6A, pins: [0x2a, NO_PIN, 0x2e, NO_PIN] }@) }
        else if v == "0x1f99"@ || v == "0x1f95"@ { Ok(HotPlugLayout::Intel { sideband_base: PCR_BASE_ADDRESS, port: 0x6A, pins: [NO_PIN, 0x2e, NO_PIN, NO_PIN] }@) }
        else { Err(HotPlugErrorView::VariantUnsupported("gaze15"@, v)) }
    } else if m == "kudu6"@ {
        Ok(HotPlugLayoutView::Amd(seq![0x02u32, 0x03u32, 0x15u32]))
    } else {
        Err(HotPlugErrorView::ModelUnsupported(m))
    }
}

/// Whether the model needs the subsystem device of its host bridge to be told apart.
pub fn needs_subsystem_variant(model: &str) -> (b: bool)
    ensures
        b == (trim(model@) == "gaze14"@),
{
    eq_lit(&trim_chars(&chars_of(model)), "gaze14")
}

/// The hot-plug layout of the model whose product version is `model`.
pub fn hotplug_layout(model: &str, subsystem_variant: Option<&str>, nvidia_device: Option<&str>) -> (r: Result<HotPlugLayout, HotPlugDetectError>)
    ensures
        result_view(r) == layout_for(model@, opt_str_view(subsystem_variant), opt_str_view(nvidia_device)),
{
    let m = trim_chars(&chars_of(model));
    if eq_lit(&m, "addw1") || eq_lit(&m, "addw2") {
        Ok(HotPlugLayout::Intel { sideband_base: PCR_BASE_ADDRESS, port: 0x6A, pins: [0x28, 0x2a, 0x2c, 0x2e] })
    } else if eq_lit(&m, "addw3") {
        Ok(HotPlugLayout::Intel { sideband_base: 0xE000_0000, port: 0x6E, pins: [0x04, 0x08, NO_PIN, NO_PIN] })
    } else if eq_lit(&m, "addw4") {
        Ok(HotPlugLayout::Intel { sideband_base: 0xE000_0000, port: 0x6E, pins: [0x02, 0x04, NO_PIN, NO_PIN] })
    } else if eq_lit(&m, "bonw15") || eq_lit(&m, "bonw15-b") {
        Ok(HotPlugLayout::Intel { sideband_base: 0xE000_0000, port: 0x6E, pins: [0x02, 0x06, NO_PIN, NO_PIN] })
    } else if eq_lit(&m, "gaze16-3050") {
        Ok(HotPlugLayout::Intel { sideband_base: PCR_BASE_ADDRESS, port: 0x6A, pins: [NO_PIN, 0x58, NO_PIN, NO_PIN] })
    } else if eq_lit(&m, "gaze16-3060") || eq_lit(&m, "gaze16-3060-b") {
        Ok(HotPlugLayout::Intel { sideband_base: PCR_BASE_ADDRESS, port: 0x69, pins: [0x02, 0x04, NO_PIN, NO_PIN] })
    } else if eq_lit(&m, "gaze17-3060-b") {
        Ok(HotPlugLayout::Intel { sideband_base: PCR_BASE_ADDRESS, port: 0x6E, pins: [0x72, 0x78, NO_PIN, NO_PIN] })
    } else if eq_lit(&m, "oryp4") || eq_lit(&m, "oryp4-b") || eq_lit(&m, "oryp5") {
        Ok(HotPlugLayout::Intel { sideband_base: PCR_BASE_ADDRESS, port: 0x6A, pins: [0x28, 0x2a, 0x2c, NO_PIN] })
    } else if eq_lit(&m, "oryp6") || eq_lit(&m, "oryp7") {
        Ok(HotPlugLayout::Intel { sideband_base: PCR_BASE_ADDRESS, port: 0x6A, pins: [0x2a, 0x2c, 0x2e, NO_PIN] })
    } else if eq_lit(&m, "oryp8") {
        Ok(HotPlugLayout::Intel { sideband_base: PCR_BASE_ADDRESS, port: 0x69, pins: [0x02, 0x04, 0x06, NO_PIN] })
    } else if eq_lit(&m, "oryp9") || eq_lit(&m, "oryp10") {
        Ok(HotPlugLayout::Intel { sideband_base: PCR_BASE_ADDRESS, port: 0x6E, pins: [0x72, 0x78, 0x7C, NO_PIN] })
    } else if eq_lit(&m, "oryp11") {
        Ok(HotPlugLayout::Intel { sideband_base: PCR_BASE_ADDRESS, port: 0x6E, pins: [0x72, 0x78, NO_PIN, NO_PIN] })
    } else if eq_lit(&m, "oryp12") {
        Ok(HotPlugLayout::Intel { sideband_base: 0xE000_0000, port: 0x6E, pins: [0x04, 0x08, NO_PIN, NO_PIN] })
    } else if eq_lit(&m, "serw13") {
        Ok(HotPlugLayout::Intel { sideband_base: 0xE000_0000, port: 0x6E, pins: [0x00, NO_PIN, 0x04, 0x08] })
    } else if eq_lit(&m, "gaze14") {
        let v = trim_chars(&match subsystem_variant { Some(v) => chars_of(v), None => Vec::new() });
        if eq_lit(&v, "0x8550") || eq_lit(&v, "0x8551") { Ok(HotPlugLayout::Intel { sideband_base: PCR_BASE_ADDRESS, port: 0x6A, pins: [0x2a, NO_PIN, 0x2e, NO_PIN] }) }
        else if eq_lit(&v, "0x8560") || eq_lit(&v, "0x8561") { Ok(HotPlugLayout::Intel { sideband_base: PCR_BASE_ADDRESS, port: 0x6A, pins: [NO_PIN, 0x2e, NO_PIN, NO_PIN] }) }
        else { Err(HotPlugDetectError::VariantUnsupported { model: "gaze14", variant: string_of(&v) }) }
    } else if eq_lit(&m, "gaze15") {
        let v = trim_chars(&match nvidia_device { Some(v) => chars_of(v), None => chars_of("unknown") });
        if eq_lit(&v, "0x2191") { Ok(HotPlugLayout::Intel { sideband_base: PCR_BASE_ADDRESS, port: 0x6A, pins: [0x2a, NO_PIN, 0x2e, NO_PIN] }) }
        else if eq_lit(&v, "0x1f99") || eq_lit(&v, "0x1f95") { Ok(HotPlugLayout::Intel { sideband_base: PCR_BASE_ADDRESS, port: 0x6A, pins: [NO_PIN, 0x2e, NO_PIN, NO_PIN] }) }
        else { Err(HotPlugDetectError::VariantUnsupported { model: "gaze15", variant: string_of(&v) }) }
    } else if eq_lit(&m, "kudu6") {
        let mut gpios: Vec<u32> = Vec::new();
        gpios.push(0x02);
        gpios.push(0x03);
        gpios.push(0x15);
        assert(gpios@ =~= seq![0x02u32, 0x03u32, 0x15u32]);
        Ok(HotPlugLayout::Amd { gpios })
    } else {
        Err(HotPlugDetectError::ModelUnsupported(string_of(&m)))
    }
}

/// The hot-plug state of the ports of an Intel layout from the GPIO values read for its
/// pins: a port with a pin is plugged when bit 1 of its value is set.
pub open spec fn intel_hpd(pins: Seq<u8>, data: Seq<u32>, i: int) -> bool {
    pins[i] != NO_PIN && data[i] & 2 == 2
}

pub fn intel_detect(pins: [u8; 4], data: [u32; 4]) -> (hpd: [bool; 4])
    ensures
        forall|i: int| 0 <= i < 4 ==> hpd@[i] == intel_hpd(pins@, data@, i),
{
    let mut hpd = [false; 4];
    let mut i: usize = 0;
    while i < 4
        invariant
            i <= 4,
            forall|j: int| 0 <= j < i ==> hpd@[j] == intel_hpd(pins@, data@, j),
            forall|j: int| i <= j < 4 ==> !hpd@[j],
        decreases 4 - i,
    {
        if pins[i] != NO_PIN {
            hpd[i] = data[i] & 2 == 2;
        }
        i = i + 1;
    }
    hpd
}


/// The hot-plug detection of an Intel machine: the GPIO community port and the pin of
/// each port, `NO_PIN` where a port has none.
#[derive(Clone, Copy, Debug)]
pub struct Intel {
    pub port: u8,
    pub pins: [u8; 4],
}

impl Intel {
    /// Which ports are plugged, from the GPIO value read for each port's pin.
    pub fn detect(&self, data: [u32; 4]) -> (hpd: [bool; 4])
        ensures
            forall|i: int| 0 <= i < 4 ==> hpd@[i] == intel_hpd(self.pins@, data@, i),
    {
        intel_detect(self.pins, data)
    }
}

/// The control register of AMD GPIO `gpio`.
pub fn amd_control_offset(gpio: u32) -> (offset: u32)
    requires
        AMD_FCH_GPIO_CONTROL_BASE + gpio * 4 <= u32::MAX,
    ensures
        offset == AMD_FCH_GPIO_CONTROL_BASE + gpio * 4,
{
    AMD_FCH_GPIO_CONTROL_BASE + gpio * 4
}

/// The hot-plug state of the ports of an AMD layout from the control registers read:
/// a port is plugged when bit 16 of its register is set; reading stops at the first
/// register that could not be read, and the ports from there on count as unplugged.
pub open spec fn amd_hpd(values: Seq<Option<u32>>, i: int) -> bool {
    i < values.len() && (forall|j: int| 0 <= j <= i ==> values[j] is Some) && values[i]->0 & 0x1_0000 == 0x1_0000
}

pub fn amd_detect(values: &Vec<Option<u32>>) -> (hpd: [bool; 4])
    requires
        values@.len() <= 4,
    ensures
        forall|i: int| 0 <= i < 4 ==> hpd@[i] == amd_hpd(values@, i),
{
    let mut hpd = [false; 4];
    let mut i: usize = 0;
    while i < values.len()
        invariant
            i <= values@.len() <= 4,
            forall|j: int| 0 <= j < i ==> values@[j] is Some,
            forall|j: int| 0 <= j < i ==> hpd@[j] == amd_hpd(values@, j),
            forall|j: int| i <= j < 4 ==> !hpd@[j],
        decreases values@.len() - i,
    {
        match values[i] {
            Some(v) => {
                hpd[i] = v & 0x1_0000 == 0x1_0000;
            },
            None => {
                assert forall|j: int| 0 <= j < 4 implies hpd@[j] == amd_hpd(values@, j) by {
                    if j >= i {
                        assert(values@[i as int] is None);
                    }
                }
                return hpd;
            },
        }
        i = i + 1;
    }
    hpd
}

/// The display port multiplexer of a model: its hot-plug pin and its switch pin, as
/// (port, pin) pairs, read through the sideband interface at `sideband_base`.
#[derive(Debug, Clone, Copy, PartialEq, Eq)]
pub struct DisplayPortMux {
    pub sideband_base: u64,
    pub hpd: (u8, u8),
    pub mux: (u8, u8),
}

pub open spec fn mux_layout_for(model: Seq<char>) -> Option<DisplayPortMux> {
    let m = trim(model);
    if m == "bonw14"@ {
        Some(DisplayPortMux { sideband_base: PCR_BASE_ADDRESS, hpd: (0x6A, 0x2E), mux: (0x6B, 0x0A) })
    } else if m == "galp2"@ || m == "galp3"@ || m == "galp3-b"@ {
        Some(DisplayPortMux { sideband_base: PCR_BASE_ADDRESS, hpd: (0xAE, 0x31), mux: (0xAF, 0x16) })
    } else if m == "darp5"@ || m == "darp6"@ || m == "galp3-c"@ || m == "galp4"@ {
        Some(DisplayPortMux { sideband_base: PCR_BASE_ADDRESS, hpd: (0x6A, 0x4A), mux: (0x6E, 0x2C) })
    } else {
        None
    }
}

pub fn display_port_mux_layout(model: &str) -> (r: Result<DisplayPortMux, HotPlugDetectError>)
    ensures
        match r {
            Ok(x) => mux_layout_for(model@) == Some(x),
            Err(e) => mux_layout_for(model@) is None && e@ == HotPlugErrorView::ModelUnsupported(trim(model@)),
        },
{
    let m = trim_chars(&chars_of(model));
    if eq_lit(&m, "bonw14") {
        Ok(DisplayPortMux { sideband_base: PCR_BASE_ADDRESS, hpd: (0x6A, 0x2E), mux: (0x6B, 0x0A) })
    } else if eq_lit(&m, "galp2") || eq_lit(&m, "galp3") || eq_lit(&m, "galp3-b") {
        Ok(DisplayPortMux { sideband_base: PCR_BASE_ADDRESS, hpd: (0xAE, 0x31), mux: (0xAF, 0x16) })
    } else if eq_lit(&m, "darp5") || eq_lit(&m, "darp6") || eq_lit(&m, "galp3-c") || eq_lit(&m, "galp4") {
        Ok(DisplayPortMux { sideband_base: PCR_BASE_ADDRESS, hpd: (0x6A, 0x4A), mux: (0x6E, 0x2C) })
    } else {
        Err(HotPlugDetectError::ModelUnsupported(string_of(&m)))
    }
}

/// The switch value after a step: with the hot-plug pin high nothing changes, else the
/// switch flips bit 0, from the mini DisplayPort to USB-C and back.
pub open spec fn mux_step_value(hpd_data: u32, mux_data: u32) -> Option<u32> {
    if hpd_data & 2 == 2 {
        None
    } else if mux_data & 1 == 1 {
        Some(mux_data & !1u32)
    } else {
        Some(mux_data | 1)
    }
}

impl DisplayPortMux {
    /// The value to write to the switch pin, given the values read from the hot-plug and
    /// switch pins; `None` when nothing is written.
    pub fn step(&self, hpd_data: u32, mux_data: u32) -> (r: Option<u32>)
        ensures
            r == mux_step_value(hpd_data, mux_data),
    {
        if hpd_data & 2 == 2 {
            None
        } else if mux_data & 1 == 1 {
            Some(mux_data & !1u32)
        } else {
            Some(mux_data | 1)
        }
    }
}

/// Two steps with the hot-plug pin low flip the switch back to where it was.
pub proof fn lemma_mux_step_twice(hpd_data: u32, mux_data: u32)
    requires
        hpd_data & 2 != 2,
    ensures
        mux_step_value(hpd_data, mux_data) matches Some(m1) && mux_step_value(hpd_data, m1) == Some(mux_data),
        mux_step_value(hpd_data, mux_data) matches Some(m1) && (m1 & 1) != (mux_data & 1),
{
    assert((mux_data & 1 == 1) ==> ((mux_data & !1u32) & 1 != 1) && ((mux_data & !1u32) | 1) == mux_data) by (bit_vector);
    assert((mux_data & 1 != 1) ==> ((mux_data | 1) & 1 == 1) && ((mux_data | 1) & !1u32) == mux_data) by (bit_vector);
}


/// Tells which ports were plugged in since the last reading.
#[derive(Clone, Copy, Debug)]
pub struct Emitter {
    pub last_detection: [bool; 4],
}

impl Emitter {
    /// An emitter that starts from the first reading.
    pub fn new(first: [bool; 4]) -> (e: Emitter)
        ensures
            e.last_detection == first,
    {
        Emitter { last_detection: first }
    }

    /// The ports plugged in since the last reading, in order; the reading is kept for
    /// the next time.
    pub fn emit_on_detect(&mut self, now: [bool; 4]) -> (r: Vec<usize>)
        ensures
            final(self).last_detection == now,
            forall|k: int| 0 <= k < r@.len() ==> r@[k] < 4 && rising(old(self).last_detection, now, r@[k] as int),
            forall|i: int| 0 <= i < 4 && rising(old(self).last_detection, now, i) ==> r@.contains(i as usize),
            forall|a: int, b: int| 0 <= a < b < r@.len() ==> r@[a] < r@[b],
    {
        let r = rising_edges(self.last_detection, now);
        self.last_detection = now;
        r
    }
}

/// A reading that repeats the last one reports nothing: a port is reported once per
/// plug.
pub proof fn lemma_repeat_reading_silent(now: [bool; 4], i: int)
    ensures
        !rising(now, now, i),
{
}

} // verus!
