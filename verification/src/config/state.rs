//! The state file: the power profile and fan curve that the daemon starts with.
use crate::text::{chars_of, push_all, push_str, push_text, string_of};
use vstd::prelude::*;
use vstd::utf8::encode_utf8;

verus! {

/// The fan curve and power profile that the daemon starts with.
#[derive(Clone, Debug)]
pub struct ActiveState {
    pub fan_curve: String,
    pub power_profile: String,
}

impl Default for ActiveState {
    fn default() -> (s: Self)
        ensures
            s.fan_curve@ == "standard"@,
            s.power_profile@ == "balanced"@,
    {
        ActiveState {
            fan_curve: string_of(&chars_of("standard")),
            power_profile: string_of(&chars_of("balanced")),
        }
    }
}

/// The comment at the head of the state file.
pub open spec fn state_header() -> Seq<char> {
    "# This config is automatically generated and maintained by system76-power.\n# Any changes to the formatting of this file will be lost when the daemon\n# overwites this file on a profile change.\n\n"@
}

impl ActiveState {
    /// The state that the daemon starts with: the one stored in the state file, or the
    /// default one when there is no such file (the caller then writes it).
    pub fn new(stored: Option<ActiveState>) -> (s: Self)
        ensures
            match stored {
                Some(st) => s.fan_curve@ == st.fan_curve@ && s.power_profile@ == st.power_profile@,
                None => s.fan_curve@ == "standard"@ && s.power_profile@ == "balanced"@,
            },
    {
        match stored {
            Some(st) => st,
            None => Self::default(),
        }
    }

    /// The text of the state file.
    pub open spec fn text(self) -> Seq<char> {
        state_header()
            + "# The power profile to set when starting the daemon. The default is 'balanced'.\npower_profile = '"@
            + self.power_profile@
            + "'\n\n# The fan curve profile to set when starting the daemon. The default is 'standard'.\nfan_curve = '"@
            + self.fan_curve@ + "'\n"@
    }

    /// The bytes of the state file.
    pub fn serialize(&self) -> (out: Vec<u8>)
        ensures
            out@ == encode_utf8(self.text()),
    {
        let mut t: Vec<char> = Vec::new();
        push_str(
            &mut t,
            "# This config is automatically generated and maintained by system76-power.\n# Any changes to the formatting of this file will be lost when the daemon\n# overwites this file on a profile change.\n\n",
        );
        push_str(
            &mut t,
            "# The power profile to set when starting the daemon. The default is 'balanced'.\npower_profile = '",
        );
        push_all(&mut t, &chars_of(self.power_profile.as_str()));
        push_str(
            &mut t,
            "'\n\n# The fan curve profile to set when starting the daemon. The default is 'standard'.\nfan_curve = '",
        );
        push_all(&mut t, &chars_of(self.fan_curve.as_str()));
        push_str(&mut t, "'\n");
        assert(t@ =~= self.text());
        let mut out: Vec<u8> = Vec::new();
        push_text(&mut out, &t);
        assert(out@ =~= encode_utf8(self.text()));
        out
    }
}

} // verus!
