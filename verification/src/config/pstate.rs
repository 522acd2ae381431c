//! Intel P-state limits per profile.
use crate::text::{bool_text, decimal, push_bool, push_decimal, push_str, push_text};
use vstd::prelude::*;
use vstd::utf8::encode_utf8;

verus! {

/// The minimum and maximum performance, in percent, and whether turbo is on.
#[derive(Clone, Copy, Debug, PartialEq, Eq, Structural)]
pub struct ConfigPState {
    pub min: u8,
    pub max: u8,
    pub turbo: bool,
}

impl ConfigPState {
    pub fn new(min: u8, max: u8, turbo: bool) -> (c: Self)
        ensures
            c == (ConfigPState { min, max, turbo }),
    {
        Self { min, max, turbo }
    }

    /// The battery profile: 0% to 50%, no turbo.
    pub fn battery() -> (c: Self)
        ensures
            c == (ConfigPState { min: 0, max: 50, turbo: false }),
    {
        Self { min: 0, max: 50, turbo: false }
    }

    /// The balanced profile: 0% to 100%, turbo.
    pub fn balanced() -> (c: Self)
        ensures
            c == (ConfigPState { min: 0, max: 100, turbo: true }),
    {
        Self { min: 0, max: 100, turbo: true }
    }

    /// The performance profile: 50% to 100%, turbo.
    pub fn performance() -> (c: Self)
        ensures
            c == (ConfigPState { min: 50, max: 100, turbo: true }),
    {
        Self { min: 50, max: 100, turbo: true }
    }

    /// The TOML lines that hold these values.
    pub open spec fn toml(self) -> Seq<char> {
        "pstate_min = "@ + decimal(self.min as nat) + "\npstate_max = "@ + decimal(self.max as nat)
            + "\npstate_turbo = "@ + bool_text(self.turbo) + "\n"@
    }

    /// Appends the TOML lines of these values.
    pub fn serialize_toml(&self, out: &mut Vec<u8>)
        ensures
            final(out)@ == old(out)@ + encode_utf8(self.toml()),
    {
        let mut t: Vec<char> = Vec::new();
        push_str(&mut t, "pstate_min = ");
        push_decimal(&mut t, self.min as u64);
        push_str(&mut t, "\npstate_max = ");
        push_decimal(&mut t, self.max as u64);
        push_str(&mut t, "\npstate_turbo = ");
        push_bool(&mut t, self.turbo);
        push_str(&mut t, "\n");
        assert(t@ =~= self.toml());
        push_text(out, &t);
    }
}

} // verus!
