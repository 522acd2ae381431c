//! The ACPI platform profile (`/sys/firmware/acpi/platform_profile`): which profile
//! each power profile of the daemon applies.
use crate::text::{ascii_words, ascii_words_chars, chars_of, eq_lit, string_of, string_views, views};
use vstd::prelude::*;

verus! {

/// The file that holds the platform profile.
pub const SYSFS_PATH: &'static str = "/sys/firmware/acpi/platform_profile";

/// The file that lists the platform profiles to choose from.
pub const CHOICES_PATH: &'static str = "/sys/firmware/acpi/platform_profile_choices";

/// The profiles to choose from, as the choices file lists them.
pub fn choices(text: &str) -> (c: Vec<String>)
    ensures
        string_views(c@) == ascii_words(text@),
{
    let w = ascii_words_chars(&chars_of(text));
    let mut c: Vec<String> = Vec::new();
    let mut i: usize = 0;
    while i < w.len()
        invariant
            i <= w@.len(),
            string_views(c@) == views(w@).take(i as int),
        decreases w@.len() - i,
    {
        let ghost old_c = c@;
        let s = string_of(&w[i]);
        c.push(s);
        proof {
            crate::text::lemma_string_views_push(old_c, s);
            assert(views(w@).take(i + 1) =~= views(w@).take(i as int).push(w@[i as int]@));
        }
        i = i + 1;
    }
    assert(views(w@).take(i as int) =~= views(w@));
    c
}

/// Whether a platform profile saves power: `low-power` or `quiet`.
pub open spec fn saves_power(c: Seq<char>) -> bool {
    c == "low-power"@ || c == "quiet"@
}

/// The platform profile for the battery profile: the first choice that saves power,
/// else the first choice, which is the best guess; none when there is no choice.
pub fn battery(choices: &Vec<String>) -> (r: Option<usize>)
    ensures
        match r {
            Some(i) => i < choices@.len() && ((saves_power(choices@[i as int]@) && forall|j: int|
                0 <= j < i ==> !saves_power(#[trigger] choices@[j]@)) || (i == 0 && forall|j: int|
                0 <= j < choices@.len() ==> !saves_power(#[trigger] choices@[j]@))),
            None => choices@.len() == 0,
        },
{
    let mut i: usize = 0;
    while i < choices.len()
        invariant
            i <= choices@.len(),
            forall|j: int| 0 <= j < i ==> !saves_power(#[trigger] choices@[j]@),
        decreases choices@.len() - i,
    {
        let c = chars_of(choices[i].as_str());
        if eq_lit(&c, "low-power") || eq_lit(&c, "quiet") {
            return Some(i);
        }
        i = i + 1;
    }
    if choices.len() > 0 {
        Some(0)
    } else {
        None
    }
}

/// The platform profile for the balanced profile.
pub fn balanced() -> (r: &'static str)
    ensures
        r@ == "balanced"@,
{
    "balanced"
}

/// The platform profile for the performance profile.
pub fn performance() -> (r: &'static str)
    ensures
        r@ == "performance"@,
{
    "performance"
}

} // verus!
