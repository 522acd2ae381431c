//! The configuration file of the daemon, `/etc/system76-power/config.toml`, and the
//! state file beside it: their values, their defaults, and the annotated TOML that
//! they are written back as.
pub mod backlight;
pub mod defaults;
pub mod fans;
pub mod pci;
pub mod profile;
pub mod pstate;
pub mod radeon;
pub mod state;
pub mod thresholds;

use crate::text::push_str;
use vstd::prelude::*;

verus! {

/// A `key = value` line, commented out with `# ` when the value is the default one,
/// the value in single quotes when `quote` is set.
pub open spec fn commented_line(quote: bool, key: Seq<char>, is_default: bool, value: Seq<char>) -> Seq<char> {
    let comment = if is_default {
        "# "@
    } else {
        Seq::empty()
    };
    let q = if quote {
        "'"@
    } else {
        Seq::empty()
    };
    comment + key + " = "@ + q + value + q
}

/// Appends the line `key = value`, commented out when the value is the default one.
pub fn comment_if_default(out: &mut Vec<char>, quote: bool, key: &str, is_default: bool, value: &Vec<char>)
    ensures
        final(out)@ == old(out)@ + commented_line(quote, key@, is_default, value@),
{
    let ghost start = out@;
    if is_default {
        push_str(out, "# ");
    }
    push_str(out, key);
    push_str(out, " = ");
    if quote {
        push_str(out, "'");
    }
    crate::text::push_all(out, value);
    if quote {
        push_str(out, "'");
    }
    proof {
        let comment = if is_default {
            "# "@
        } else {
            Seq::<char>::empty()
        };
        let q = if quote {
            "'"@
        } else {
            Seq::<char>::empty()
        };
        assert(final(out)@ =~= start + (comment + key@ + " = "@ + q + value@ + q));
    }
}

} // verus!
