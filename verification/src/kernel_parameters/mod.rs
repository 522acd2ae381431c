//! Kernel parameters under `/proc` and `/sys`: where each one is, and what is written
//! to set it.
pub mod radeon;
pub mod snd;

use crate::sysfs::{write_of, writes_view, SysfsWrite};
use crate::text::{chars_of, decimal, push_all, push_decimal, push_str, string_of};
use vstd::prelude::*;

verus! {

/// A kernel parameter, by the file that holds it.
#[derive(Clone, Debug)]
pub struct KernelParameter {
    pub path: String,
}

/// The value read from a parameter's file: its text without the last character, the
/// newline the kernel ends it with.
pub open spec fn parameter_value(text: Seq<char>) -> Seq<char> {
    if text.len() > 0 {
        text.drop_last()
    } else {
        text
    }
}

impl KernelParameter {
    /// A parameter at `path`.
    pub fn at(path: &str) -> (p: Self)
        ensures
            p.path@ == path@,
    {
        KernelParameter { path: string_of(&chars_of(path)) }
    }

    /// A parameter at the path `prefix`, `unique` and `suffix` make.
    pub fn dynamic(prefix: &str, unique: &str, suffix: &str) -> (p: Self)
        ensures
            p.path@ == prefix@ + unique@ + suffix@,
    {
        let mut t: Vec<char> = Vec::new();
        push_str(&mut t, prefix);
        push_str(&mut t, unique);
        push_str(&mut t, suffix);
        assert(t@ =~= prefix@ + unique@ + suffix@);
        KernelParameter { path: string_of(&t) }
    }

    /// The value of the parameter, from the text its file holds.
    pub fn get(&self, text: &str) -> (v: String)
        ensures
            v@ == parameter_value(text@),
    {
        let mut t = chars_of(text);
        if t.len() > 0 {
            t.pop();
        }
        assert(t@ =~= parameter_value(text@));
        string_of(&t)
    }

    /// The write that sets the parameter to `value`.
    pub fn set(&self, value: &Vec<char>) -> (w: SysfsWrite)
        ensures
            w@ == (self.path@, value@),
    {
        write_of(&chars_of(self.path.as_str()), value)
    }
}

/// `vm.laptop_mode`.
pub fn laptop_mode() -> (p: KernelParameter)
    ensures
        p.path@ == "/proc/sys/vm/laptop_mode"@,
{
    KernelParameter::at("/proc/sys/vm/laptop_mode")
}

/// `vm.dirty_expire_centisecs`.
pub fn dirty_expire() -> (p: KernelParameter)
    ensures
        p.path@ == "/proc/sys/vm/dirty_expire_centisecs"@,
{
    KernelParameter::at("/proc/sys/vm/dirty_expire_centisecs")
}

/// `vm.dirty_writeback_centisecs`.
pub fn dirty_writeback() -> (p: KernelParameter)
    ensures
        p.path@ == "/proc/sys/vm/dirty_writeback_centisecs"@,
{
    KernelParameter::at("/proc/sys/vm/dirty_writeback_centisecs")
}

/// `kernel.nmi_watchdog`.
pub fn nmi_watchdog() -> (p: KernelParameter)
    ensures
        p.path@ == "/proc/sys/kernel/nmi_watchdog"@,
{
    KernelParameter::at("/proc/sys/kernel/nmi_watchdog")
}

/// The PCIe ASPM policy.
pub fn pcie_aspm() -> (p: KernelParameter)
    ensures
        p.path@ == "/sys/module/pcie_aspm/parameters/policy"@,
{
    KernelParameter::at("/sys/module/pcie_aspm/parameters/policy")
}

/// The I/O scheduler of a block device.
pub fn disk_io_scheduler(unique: &str) -> (p: KernelParameter)
    ensures
        p.path@ == "/sys/block/"@ + unique@ + "/queue/scheduler"@,
{
    KernelParameter::dynamic("/sys/block/", unique, "/queue/scheduler")
}

/// The `power_save` parameter of a kernel module.
pub fn power_save(unique: &str) -> (p: KernelParameter)
    ensures
        p.path@ == "/sys/module/"@ + unique@ + "/parameters/power_save"@,
{
    KernelParameter::dynamic("/sys/module/", unique, "/parameters/power_save")
}

/// The `power_level` parameter of a kernel module.
pub fn power_level(unique: &str) -> (p: KernelParameter)
    ensures
        p.path@ == "/sys/module/"@ + unique@ + "/parameters/power_level"@,
{
    KernelParameter::dynamic("/sys/module/", unique, "/parameters/power_level")
}

/// The `power_save_controller` parameter of a kernel module.
pub fn power_save_controller(unique: &str) -> (p: KernelParameter)
    ensures
        p.path@ == "/sys/module/"@ + unique@ + "/parameters/power_save_controller"@,
{
    KernelParameter::dynamic("/sys/module/", unique, "/parameters/power_save_controller")
}

/// How long the kernel keeps written data in memory before it goes to disk.
#[derive(Clone, Debug)]
pub struct Dirty {
    pub expire: KernelParameter,
    pub writeback: KernelParameter,
}

impl Default for Dirty {
    fn default() -> (d: Self)
        ensures
            d.expire.path@ == "/proc/sys/vm/dirty_expire_centisecs"@,
            d.writeback.path@ == "/proc/sys/vm/dirty_writeback_centisecs"@,
    {
        Dirty { expire: dirty_expire(), writeback: dirty_writeback() }
    }
}

impl Dirty {
    /// The writes that let up to `secs` seconds of work stay in memory: the same number
    /// of centiseconds to both the expiry and the writeback interval.
    pub fn set_max_lost_work(&self, secs: u32) -> (w: Vec<SysfsWrite>)
        ensures
            writes_view(w@) == seq![
                (self.expire.path@, decimal(secs as nat * 100)),
                (self.writeback.path@, decimal(secs as nat * 100)),
            ],
    {
        let centisecs = secs as u64 * 100;
        let mut value: Vec<char> = Vec::new();
        push_decimal(&mut value, centisecs);
        let mut w: Vec<SysfsWrite> = Vec::new();
        w.push(self.expire.set(&value));
        w.push(self.writeback.set(&value));
        assert(writes_view(w@) =~= seq![
            (self.expire.path@, decimal(secs as nat * 100)),
            (self.writeback.path@, decimal(secs as nat * 100)),
        ]);
        w
    }
}

} // verus!
