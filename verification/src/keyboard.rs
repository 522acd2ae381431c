//! Keyboard backlights on D-Bus: which LEDs are keyboards, the object path each gets,
//! and how their sysfs files are read and written.
use crate::text::{
    all_digits, chars_of, decimal, digits_value, lemma_string_views_push, parse_unsigned,
    parse_unsigned_chars, push_decimal, push_signed, push_str, signed_decimal, starts_with,
    starts_with_chars, string_of, string_views, trim_end, trim_end_chars,
};
use vstd::prelude::*;

verus! {

/// The object path of the daemon.
pub const DBUS_PATH: &'static str = "/com/system76/PowerDaemon";

/// What `i32::from_str_radix(s, 10)` reads: an optional sign, then at least one digit.
pub open spec fn parse_i32(s: Seq<char>) -> Option<i32> {
    if s.len() > 0 && s[0] == '-' {
        let d = s.drop_first();
        if d.len() > 0 && all_digits(d, 10) && digits_value(d, 10) <= 0x8000_0000 {
            Some((-digits_value(d, 10)) as i32)
        } else {
            None
        }
    } else {
        match parse_unsigned(s, 10, i32::MAX as int) {
            Some(v) => Some(v as i32),
            None => None,
        }
    }
}

fn parse_i32_chars(s: &Vec<char>) -> (r: Option<i32>)
    ensures
        r == parse_i32(s@),
{
    if s.len() > 0 && s[0] == '-' {
        let mut d: Vec<char> = Vec::new();
        let mut i: usize = 1;
        while i < s.len()
            invariant
                1 <= i <= s@.len(),
                d@ == s@.subrange(1, i as int),
            decreases s@.len() - i,
        {
            d.push(s[i]);
            i = i + 1;
            assert(d@ =~= s@.subrange(1, i as int));
        }
        assert(d@ =~= s@.drop_first());
        if d.len() > 0 && d[0] == '+' {
            assert(!all_digits(d@, 10)) by {
                assert(crate::text::digit_val(d@[0]) >= 10);
            }
            return None;
        }
        proof {
            crate::text::lemma_parse_unsigned_range(d@, 10, 0x8000_0000);
        }
        match parse_unsigned_chars(&d, 10, 0x8000_0000) {
            Some(v) => Some((0 - (v as i64)) as i32),
            None => None,
        }
    } else {
        proof {
            crate::text::lemma_parse_unsigned_range(s@, 10, i32::MAX as int);
        }
        match parse_unsigned_chars(s, 10, i32::MAX as u64) {
            Some(v) => Some(v as i32),
            None => None,
        }
    }
}

/// A brightness file's value: its text without trailing whitespace, as a decimal `i32`.
pub fn parse_brightness(text: &str) -> (r: Option<i32>)
    ensures
        r == parse_i32(trim_end(text@)),
{
    parse_i32_chars(&trim_end_chars(&chars_of(text)))
}

/// The text written to a brightness file.
pub fn brightness_text(brightness: i32) -> (t: String)
    ensures
        t@ == signed_decimal(brightness as int) + "\n"@,
{
    let mut v: Vec<char> = Vec::new();
    push_signed(&mut v, brightness as i64);
    push_str(&mut v, "\n");
    string_of(&v)
}

/// The file the color of a keyboard is read from: `color`, else `color_left`; none for
/// a keyboard without color.
pub fn color_file(color_exists: bool, color_left_exists: bool) -> (f: Option<&'static str>)
    ensures
        match f {
            Some(n) => (color_exists && n@ == "color"@) || (!color_exists && color_left_exists && n@
                == "color_left"@),
            None => !color_exists && !color_left_exists,
        },
{
    if color_exists {
        Some("color")
    } else if color_left_exists {
        Some("color_left")
    } else {
        None
    }
}

/// The files a color is written to: those of the keyboard's directory whose names
/// start with `color`, by index.
pub fn color_files(names: &Vec<String>) -> (r: Vec<usize>)
    ensures
        forall|k: int| 0 <= k < r@.len() ==> r@[k] < names@.len() && starts_with(names@[r@[k] as int]@, "color"@),
        forall|i: int| 0 <= i < names@.len() && starts_with(names@[i]@, "color"@) ==> r@.contains(i as usize),
        forall|a: int, b: int| 0 <= a < b < r@.len() ==> r@[a] < r@[b],
{
    let prefix = chars_of("color");
    let mut r: Vec<usize> = Vec::new();
    let mut i: usize = 0;
    while i < names.len()
        invariant
            i <= names@.len(),
            prefix@ == "color"@,
            forall|k: int| 0 <= k < r@.len() ==> r@[k] < i && starts_with(names@[r@[k] as int]@, "color"@),
            forall|j: int| 0 <= j < i && starts_with(names@[j]@, "color"@) ==> r@.contains(j as usize),
            forall|a: int, b: int| 0 <= a < b < r@.len() ==> r@[a] < r@[b],
        decreases names@.len() - i,
    {
        let ghost old_r = r@;
        if starts_with_chars(&chars_of(names[i].as_str()), &prefix) {
            r.push(i);
        }
        assert forall|j: int| 0 <= j <= i && starts_with(names@[j]@, "color"@) implies r@.contains(j as usize) by {
            if j < i {
                let k = choose|k: int| 0 <= k < old_r.len() && old_r[k] == j as usize;
                assert(r@[k] == old_r[k]);
            } else {
                assert(r@[r@.len() - 1] == i);
            }
        }
        i = i + 1;
    }
    r
}

/// Whether an LED is a keyboard backlight: its name ends with `:kbd_backlight`.
pub open spec fn is_keyboard_led(name: Seq<char>) -> bool {
    name.len() >= 14 && name.subrange(name.len() - 14, name.len() as int) == ":kbd_backlight"@
}

fn ends_with_kbd_backlight(name: &Vec<char>) -> (b: bool)
    ensures
        b == is_keyboard_led(name@),
{
    let suffix = chars_of(":kbd_backlight");
    proof {
        reveal_strlit(":kbd_backlight");
    }
    if name.len() < 14 {
        return false;
    }
    let n = name.len();
    let start = n - 14;
    let mut i: usize = 0;
    while i < 14
        invariant
            i <= 14,
            n == name@.len(),
            name@.len() >= 14,
            start == name@.len() - 14,
            suffix@ == ":kbd_backlight"@,
            suffix@.len() == 14,
            forall|j: int| 0 <= j < i ==> name@[start + j] == suffix@[j],
        decreases 14 - i,
    {
        if name[start + i] != suffix[i] {
            assert(name@.subrange(name@.len() - 14, name@.len() as int)[i as int] != ":kbd_backlight"@[i as int]);
            return false;
        }
        i = i + 1;
    }
    assert(name@.subrange(name@.len() - 14, name@.len() as int) =~= ":kbd_backlight"@);
    true
}

/// The object path of the keyboard numbered `n`.
pub open spec fn keyboard_path(n: nat) -> Seq<char> {
    DBUS_PATH@ + "/keyboard"@ + decimal(n)
}

/// The keyboards among the LEDs, in order, each with its object path, numbered from
/// `first` on.
pub open spec fn keyboards_from(names: Seq<String>, first: nat) -> Seq<(int, Seq<char>)>
    decreases names.len(),
{
    if names.len() == 0 {
        Seq::empty()
    } else {
        let rest = keyboards_from(names.drop_last(), first);
        if is_keyboard_led(names.last()@) {
            rest.push(((names.len() - 1) as int, keyboard_path((first + rest.len()) as nat)))
        } else {
            rest
        }
    }
}

/// The keyboards among the LED directory entries, with the object paths they are
/// given, numbered from `first` on.
pub fn keyboard_paths(names: &Vec<String>, first: u64) -> (r: Vec<(usize, String)>)
    requires
        first + names@.len() <= u64::MAX,
    ensures
        r@.map_values(|p: (usize, String)| (p.0 as int, p.1@)) == keyboards_from(names@, first as nat),
{
    let mut r: Vec<(usize, String)> = Vec::new();
    let mut i: usize = 0;
    while i < names.len()
        invariant
            i <= names@.len(),
            first + names@.len() <= u64::MAX,
            r@.len() <= i,
            r@.map_values(|p: (usize, String)| (p.0 as int, p.1@)) == keyboards_from(names@.take(i as int), first as nat),
        decreases names@.len() - i,
    {
        proof {
            assert(names@.take(i + 1).drop_last() =~= names@.take(i as int));
            assert(names@.take(i + 1).last() == names@[i as int]);
            lemma_keyboards_len(names@.take(i as int), first as nat);
        }
        if ends_with_kbd_backlight(&chars_of(names[i].as_str())) {
            let ghost before = r@;
            let mut p = chars_of(DBUS_PATH);
            push_str(&mut p, "/keyboard");
            push_decimal(&mut p, first + r.len() as u64);
            let path = string_of(&p);
            r.push((i, path));
            let ghost f = |p: (usize, String)| (p.0 as int, p.1@);
            assert(r@.map_values(f) =~= before.map_values(f).push(f((i, path))));
        }
        i = i + 1;
    }
    assert(names@.take(i as int) =~= names@);
    r
}

proof fn lemma_keyboards_len(names: Seq<String>, first: nat)
    ensures
        keyboards_from(names, first).len() <= names.len(),
    decreases names.len(),
{
    if names.len() > 0 {
        lemma_keyboards_len(names.drop_last(), first);
    }
}

/// What a change to a watched file is told as: the brightness, the color, or both for
/// a change the hardware made.
pub fn notifications(property: &str) -> (r: (bool, bool))
    ensures
        r == (if property@ == "brightness"@ {
            (true, false)
        } else if property@ == "color"@ {
            (false, true)
        } else if property@.len() == 0 {
            (true, true)
        } else {
            (false, false)
        }),
{
    let p = chars_of(property);
    if crate::text::eq_lit(&p, "brightness") {
        (true, false)
    } else if crate::text::eq_lit(&p, "color") {
        (false, true)
    } else if p.len() == 0 {
        (true, true)
    } else {
        (false, false)
    }
}

} // verus!
