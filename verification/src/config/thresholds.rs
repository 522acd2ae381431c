//! Battery thresholds at which the profile falls back to battery and back.
use super::{comment_if_default, commented_line};
use crate::text::{decimal, decimal_chars, push_str, push_text};
use vstd::prelude::*;
use vstd::utf8::encode_utf8;

verus! {

/// The charge, in percent, under which the battery profile is set (`critical`) and
/// over which that change is reverted (`normal`).
#[derive(Clone, Copy, Debug, PartialEq, Eq, Structural)]
pub struct ConfigThresholds {
    pub critical: u8,
    pub normal: u8,
}

impl Default for ConfigThresholds {
    fn default() -> (t: Self)
        ensures
            t == (ConfigThresholds { critical: 25, normal: 50 }),
    {
        ConfigThresholds { critical: 25, normal: 50 }
    }
}

impl ConfigThresholds {
    /// The `[threshold]` section: commented out as a whole when both values are the
    /// defaults, each line when its own value is.
    pub open spec fn toml(self) -> Seq<char> {
        let disabled = self.critical == 25 && self.normal == 50;
        (if disabled {
            "# "@
        } else {
            Seq::empty()
        }) + "[threshold]\n# Defines what percentage of battery is required to set the profile to 'battery'.\n"@
            + commented_line(false, "critical"@, self.critical == 25, decimal(self.critical as nat))
            + "\n\n# Defines what percentage of battery is required to revert the critical change.\n"@
            + commented_line(false, "normal"@, self.normal == 50, decimal(self.normal as nat))
            + "\n\n"@
    }

    /// Appends the `[threshold]` section.
    pub fn serialize_toml(&self, out: &mut Vec<u8>)
        ensures
            final(out)@ == old(out)@ + encode_utf8(self.toml()),
    {
        let defaults = ConfigThresholds::default();
        let disabled = defaults.critical == self.critical && defaults.normal == self.normal;
        let mut t: Vec<char> = Vec::new();
        if disabled {
            push_str(&mut t, "# ");
        }
        push_str(
            &mut t,
            "[threshold]\n# Defines what percentage of battery is required to set the profile to 'battery'.\n",
        );
        comment_if_default(
            &mut t,
            false,
            "critical",
            defaults.critical == self.critical,
            &decimal_chars(self.critical as u64),
        );
        push_str(
            &mut t,
            "\n\n# Defines what percentage of battery is required to revert the critical change.\n",
        );
        comment_if_default(
            &mut t,
            false,
            "normal",
            defaults.normal == self.normal,
            &decimal_chars(self.normal as u64),
        );
        push_str(&mut t, "\n\n");
        assert(t@ =~= self.toml());
        push_text(out, &t);
    }
}

} // verus!
