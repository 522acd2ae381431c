//! Backlight brightness per profile, in percent.
use crate::text::{decimal, push_decimal, push_str, push_text};
use vstd::prelude::*;
use vstd::utf8::encode_utf8;

verus! {

/// The brightness of the keyboard and of the screen, in percent.
#[derive(Clone, Copy, Debug, PartialEq, Eq, Structural)]
pub struct ConfigBacklight {
    pub keyboard: u8,
    pub screen: u8,
}

impl ConfigBacklight {
    /// The battery profile: keyboard off, screen at 10%.
    pub fn battery() -> (c: Self)
        ensures
            c == (ConfigBacklight { keyboard: 0, screen: 10 }),
    {
        Self { keyboard: 0, screen: 10 }
    }

    /// The balanced profile: keyboard at 50%, screen at 40%.
    pub fn balanced() -> (c: Self)
        ensures
            c == (ConfigBacklight { keyboard: 50, screen: 40 }),
    {
        Self { keyboard: 50, screen: 40 }
    }

    /// The performance profile: both at 100%.
    pub fn performance() -> (c: Self)
        ensures
            c == (ConfigBacklight { keyboard: 100, screen: 100 }),
    {
        Self { keyboard: 100, screen: 100 }
    }

    /// The TOML line that holds these values.
    pub open spec fn toml(self) -> Seq<char> {
        "backlight = { keyboard = "@ + decimal(self.keyboard as nat) + ", screen = "@ + decimal(
            self.screen as nat,
        ) + " }\n"@
    }

    /// Appends the TOML line of these values.
    pub fn serialize_toml(&self, out: &mut Vec<u8>)
        ensures
            final(out)@ == old(out)@ + encode_utf8(self.toml()),
    {
        let mut t: Vec<char> = Vec::new();
        push_str(&mut t, "backlight = { keyboard = ");
        push_decimal(&mut t, self.keyboard as u64);
        push_str(&mut t, ", screen = ");
        push_decimal(&mut t, self.screen as u64);
        push_str(&mut t, " }\n");
        assert(t@ =~= self.toml());
        push_text(out, &t);
    }
}

} // verus!
