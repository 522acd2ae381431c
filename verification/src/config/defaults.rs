//! The profiles set on connecting to and disconnecting from AC.
use super::{comment_if_default, commented_line};
use crate::text::{chars_of, push_str, push_text, string_of};
use vstd::prelude::*;
use vstd::utf8::encode_utf8;

verus! {

/// The profile set on AC and on battery, and whether experimental power saving is on.
#[derive(Clone, Debug)]
pub struct ConfigDefaults {
    pub ac: String,
    pub battery: String,
    pub experimental: bool,
}

impl Default for ConfigDefaults {
    fn default() -> (d: Self)
        ensures
            d.ac@ == "performance"@,
            d.battery@ == "battery"@,
            !d.experimental,
    {
        ConfigDefaults {
            ac: string_of(&chars_of("performance")),
            battery: string_of(&chars_of("battery")),
            experimental: false,
        }
    }
}

/// The comment and line that say whether experimental features are on.
pub open spec fn experimental_toml(on: bool) -> Seq<char> {
    if on {
        "# Uncomment to enable extra untested power-saving features\nexperimental = true\n\n"@
    } else {
        "# Uncomment to enable extra untested power-saving features\n# experimental = true\n\n"@
    }
}

impl ConfigDefaults {
    /// The annotated lines of these settings, each commented out when it holds the
    /// default value.
    pub open spec fn toml(self) -> Seq<char> {
        "# The default profile that will be set on connecting to AC.\n"@ + commented_line(
            true,
            "ac"@,
            self.ac@ == "performance"@,
            self.ac@,
        ) + "\n\n# The default profile that will be set on disconnecting from AC.\n"@ + commented_line(
            true,
            "battery"@,
            self.battery@ == "battery"@,
            self.battery@,
        ) + "\n\n"@ + experimental_toml(self.experimental)
    }

    /// Appends the annotated lines of these settings.
    pub fn serialize_toml(&self, out: &mut Vec<u8>)
        ensures
            final(out)@ == old(out)@ + encode_utf8(self.toml()),
    {
        let defaults = Self::default();
        let mut t: Vec<char> = Vec::new();
        push_str(&mut t, "# The default profile that will be set on connecting to AC.\n");
        comment_if_default(&mut t, true, "ac", defaults.ac == self.ac, &chars_of(self.ac.as_str()));
        push_str(&mut t, "\n\n# The default profile that will be set on disconnecting from AC.\n");
        comment_if_default(
            &mut t,
            true,
            "battery",
            defaults.battery == self.battery,
            &chars_of(self.battery.as_str()),
        );
        push_str(&mut t, "\n\n");
        if self.experimental {
            push_str(
                &mut t,
                "# Uncomment to enable extra untested power-saving features\nexperimental = true\n\n",
            );
        } else {
            push_str(
                &mut t,
                "# Uncomment to enable extra untested power-saving features\n# experimental = true\n\n",
            );
        }
        assert(t@ =~= self.toml());
        push_text(out, &t);
    }
}

} // verus!
