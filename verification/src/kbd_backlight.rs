//! Keyboard backlights: the LEDs under `/sys/class/leds` whose name says so.
use crate::backlight::{push_path, pushed, BacklightExt};
use crate::text::{chars_of, contains, contains_chars, push_str, string_of};
use vstd::prelude::*;

verus! {

/// A keyboard backlight: its name and its directory.
#[derive(Clone, Debug)]
pub struct KeyboardBacklight {
    pub name: String,
    pub path: String,
}

/// The directory of the LED named `name`.
pub open spec fn led_path(name: Seq<char>) -> Seq<char> {
    pushed("/sys/class/leds"@, name)
}

/// Whether an LED is a keyboard backlight: its name holds `kbd_backlight`.
pub open spec fn is_keyboard_backlight(name: Seq<char>) -> bool {
    contains(name, "kbd_backlight"@)
}

/// The keyboard backlights among the LEDs, in order.
pub open spec fn keyboard_names(names: Seq<Seq<char>>) -> Seq<Seq<char>>
    decreases names.len(),
{
    if names.len() == 0 {
        Seq::empty()
    } else if is_keyboard_backlight(names.last()) {
        keyboard_names(names.drop_last()).push(names.last())
    } else {
        keyboard_names(names.drop_last())
    }
}

impl BacklightExt for KeyboardBacklight {
    open spec fn path_view(&self) -> Seq<char> {
        self.path@
    }

    fn path(&self) -> (p: &str) {
        self.path.as_str()
    }
}

impl KeyboardBacklight {
    /// The LED named `name`; it exists where its directory can be read.
    pub fn new(name: &str) -> (k: KeyboardBacklight)
        ensures
            k.name@ == name@,
            k.path@ == led_path(name@),
    {
        KeyboardBacklight { name: string_of(&chars_of(name)), path: push_path("/sys/class/leds", name) }
    }

    /// The keyboard backlights among the LED directory entries whose names are text.
    pub fn all(names: &Vec<String>) -> (v: Vec<KeyboardBacklight>)
        ensures
            v@.map_values(|k: KeyboardBacklight| k.name@) == keyboard_names(
                names@.map_values(|s: String| s@),
            ),
            forall|i: int| 0 <= i < v@.len() ==> #[trigger] v@[i].path@ == led_path(v@[i].name@),
    {
        let ghost all_names = names@.map_values(|s: String| s@);
        let mut v: Vec<KeyboardBacklight> = Vec::new();
        let mut i: usize = 0;
        while i < names.len()
            invariant
                i <= names@.len(),
                all_names == names@.map_values(|s: String| s@),
                v@.map_values(|k: KeyboardBacklight| k.name@) == keyboard_names(all_names.take(i as int)),
                forall|j: int| 0 <= j < v@.len() ==> #[trigger] v@[j].path@ == led_path(v@[j].name@),
            decreases names@.len() - i,
        {
            let name = names[i].as_str();
            let ghost before = v@;
            proof {
                assert(all_names.take(i + 1).drop_last() =~= all_names.take(i as int));
                assert(all_names.take(i + 1).last() == names@[i as int]@);
            }
            if contains_chars(&chars_of(name), &chars_of("kbd_backlight")) {
                let k = KeyboardBacklight::new(name);
                v.push(k);
                assert(v@.map_values(|k: KeyboardBacklight| k.name@) =~= before.map_values(
                    |k: KeyboardBacklight| k.name@,
                ).push(k.name@));
            }
            i = i + 1;
        }
        assert(all_names.take(i as int) =~= all_names);
        v
    }

    pub fn name(&self) -> (n: &str)
        ensures
            n@ == self.name@,
    {
        self.name.as_str()
    }
}

} // verus!
