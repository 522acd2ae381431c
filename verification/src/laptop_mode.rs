//! Laptop mode: how long the kernel lets disks sleep.
use crate::kernel_parameters::laptop_mode;
use crate::sysfs::SysfsWrite;
use crate::text::{decimal, push_decimal};
use vstd::prelude::*;

verus! {

/// The write that sets laptop mode to `secs` seconds; it is made only where the
/// parameter's file exists.
pub fn set_laptop_mode(secs: u32) -> (w: SysfsWrite)
    ensures
        w@ == ("/proc/sys/vm/laptop_mode"@, decimal(secs as nat)),
{
    let mut value: Vec<char> = Vec::new();
    push_decimal(&mut value, secs as u64);
    laptop_mode().set(&value)
}

} // verus!
