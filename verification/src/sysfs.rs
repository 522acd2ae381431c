//! Writes to kernel files: the library decides what is written where, and the daemon
//! writes it.
use crate::text::{chars_of, parse_unsigned, parse_unsigned_chars, string_of, trim, trim_chars};
use vstd::prelude::*;

verus! {

/// A text to write to a file.
#[derive(Clone, Debug)]
pub struct SysfsWrite {
    pub path: String,
    pub value: String,
}

impl View for SysfsWrite {
    type V = (Seq<char>, Seq<char>);

    open spec fn view(&self) -> (Seq<char>, Seq<char>) {
        (self.path@, self.value@)
    }
}

/// The views of a list of writes, in order.
pub open spec fn writes_view(w: Seq<SysfsWrite>) -> Seq<(Seq<char>, Seq<char>)> {
    w.map_values(|x: SysfsWrite| x@)
}

/// A write of the characters `value` to `path`.
pub fn write_of(path: &Vec<char>, value: &Vec<char>) -> (w: SysfsWrite)
    ensures
        w@ == (path@, value@),
{
    SysfsWrite { path: string_of(path), value: string_of(value) }
}

/// The number a kernel file holds: its text, trimmed, read as an unsigned decimal
/// number.
pub open spec fn sysfs_number(text: Seq<char>) -> Option<int> {
    parse_unsigned(trim(text), 10, u64::MAX as int)
}

/// Reads the number that a kernel file holds.
pub fn parse_sysfs_number(text: &str) -> (r: Option<u64>)
    ensures
        match sysfs_number(text@) {
            Some(v) => r == Some(v as u64),
            None => r is None,
        },
{
    let t = trim_chars(&chars_of(text));
    parse_unsigned_chars(&t, 10, u64::MAX)
}

} // verus!
