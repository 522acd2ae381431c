//! The daemon's settings file, `/etc/system76-power.conf`: whether profiles follow the
//! power source, and the refresh rates and display modes to use.
use crate::display::{
    default_refresh_rate_config, mode_view, DisplayModeConfig, ModeSpec, ModeSpecView,
    RefreshRateConfig,
};
use crate::text::{
    chars_of, has_char, eq_lit, lines, lines_chars, parse_unsigned, parse_unsigned_chars,
    second_field, second_field_chars, split_once, split_once_chars, starts_with,
    starts_with_chars, string_of, trim, trim_chars, trim_matches, trim_matches_chars,
};
use vstd::prelude::*;

verus! {

/// `s` read as a `u32` the way `str::parse` does.
pub open spec fn parse_u32(s: Seq<char>) -> Option<u32> {
    match parse_unsigned(s, 10, u32::MAX as int) {
        Some(v) => Some(v as u32),
        None => None,
    }
}

pub fn parse_u32_chars(s: &Vec<char>) -> (r: Option<u32>)
    ensures
        r == parse_u32(s@),
{
    let r = parse_unsigned_chars(s, 10, u32::MAX as u64);
    proof {
        let d = if s@.len() > 0 && s@[0] == '+' {
            s@.drop_first()
        } else {
            s@
        };
        if parse_unsigned(s@, 10, u32::MAX as int) is Some {
            crate::text::lemma_digits_value_nonneg(d, 10);
        }
    }
    match r {
        Some(v) => Some(v as u32),
        None => None,
    }
}

/// Whether auto-switching is on, from the lines of the settings file: the first line that
/// starts with `enabled` (once trimmed) decides, by whether the text after its first `=`
/// (up to any further `=`) is `true` once trimmed; without such a line, or without `=`
/// on it, auto-switching is on.
pub open spec fn auto_switch_from_lines(ls: Seq<Seq<char>>) -> bool
    decreases ls.len(),
{
    if ls.len() == 0 {
        true
    } else if starts_with(trim(ls[0]), "enabled"@) {
        match second_field(ls[0], '=') {
            Some(v) => trim(v) == "true"@,
            None => true,
        }
    } else {
        auto_switch_from_lines(ls.drop_first())
    }
}

/// Whether auto-switching is on; `content` is the settings file, `None` when it cannot be
/// read, and then auto-switching is on.
pub fn load_auto_switch_config(content: Option<&str>) -> (enabled: bool)
    ensures
        enabled == match content {
            Some(c) => auto_switch_from_lines(lines(c@)),
            None => true,
        },
{
    let text = match content {
        Some(c) => c,
        None => return true,
    };
    let ls = lines_chars(&chars_of(text));
    let ghost all = lines(text@);
    let mut i: usize = 0;
    assert(all.skip(0) =~= all);
    while i < ls.len()
        invariant
            i <= ls@.len(),
            crate::text::views(ls@) == all,
            content == Some(text),
            all == lines(text@),
            auto_switch_from_lines(all) == auto_switch_from_lines(all.skip(i as int)),
        decreases ls@.len() - i,
    {
        let line = &ls[i];
        assert(all.skip(i as int)[0] == line@);
        assert(all.skip(i as int).drop_first() =~= all.skip(i + 1));
        let t = trim_chars(line);
        if starts_with_chars(&t, &chars_of("enabled")) {
            assert(all.skip(i as int).len() > 0);
            let r = match second_field_chars(line, '=') {
                Some(v) => eq_lit(&trim_chars(&v), "true"),
                None => true,
            };
            assert(r == auto_switch_from_lines(all.skip(i as int)));
            return r;
        }
        i = i + 1;
    }
    assert(all.skip(i as int).len() == 0);
    true
}

/// The key and value of a `key = value` line: the trimmed text before and after the
/// first `=`.
pub open spec fn key_value(t: Seq<char>) -> (Seq<char>, Seq<char>) {
    match split_once(t, '=') {
        Some((k, v)) => (trim(k), trim(v)),
        None => (trim(t), Seq::empty()),
    }
}

/// One line of the settings file applied to the refresh rate settings, and whether the
/// `[refresh_rate]` section is open after it.
pub open spec fn refresh_step(state: (RefreshRateConfig, bool), line: Seq<char>) -> (
    RefreshRateConfig,
    bool,
) {
    let (c, in_section) = state;
    let t = trim(line);
    if t == "[refresh_rate]"@ {
        (c, true)
    } else if starts_with(t, "["@) {
        (c, false)
    } else if in_section && t.contains('=') {
        let (key, value) = key_value(t);
        if key == "enabled"@ {
            (RefreshRateConfig { enabled: value == "true"@, ..c }, in_section)
        } else if key == "battery"@ {
            (match parse_u32(value) {
                Some(hz) => RefreshRateConfig { battery: hz, ..c },
                None => c,
            }, in_section)
        } else if key == "balanced"@ {
            (match parse_u32(value) {
                Some(hz) => RefreshRateConfig { balanced: hz, ..c },
                None => c,
            }, in_section)
        } else if key == "performance"@ {
            (match parse_u32(value) {
                Some(hz) => RefreshRateConfig { performance: hz, ..c },
                None => c,
            }, in_section)
        } else {
            (c, in_section)
        }
    } else {
        (c, in_section)
    }
}

/// A `key = value` line inside the `[refresh_rate]` section sets the setting of that
/// key and no other: `battery`, `balanced` and `performance` take the number (a value
/// that is no number leaves the settings alone), `enabled` is on exactly for `true`; a
/// line outside the section changes nothing.
pub proof fn lemma_refresh_line_sets_its_key(c: RefreshRateConfig, in_section: bool, line: Seq<char>)
    requires
        !starts_with(trim(line), "["@),
        trim(line).contains('='),
    ensures
        !in_section ==> refresh_step((c, in_section), line) == (c, in_section),
        in_section && key_value(trim(line)).0 == "battery"@ ==> refresh_step((c, in_section), line).0 == (
        match parse_u32(key_value(trim(line)).1) {
            Some(hz) => (RefreshRateConfig { battery: hz, ..c }),
            None => c,
        }),
        in_section && key_value(trim(line)).0 == "balanced"@ ==> refresh_step((c, in_section), line).0
            == (match parse_u32(key_value(trim(line)).1) {
            Some(hz) => (RefreshRateConfig { balanced: hz, ..c }),
            None => c,
        }),
        in_section && key_value(trim(line)).0 == "performance"@ ==> refresh_step((c, in_section), line).0
            == (match parse_u32(key_value(trim(line)).1) {
            Some(hz) => (RefreshRateConfig { performance: hz, ..c }),
            None => c,
        }),
        in_section && key_value(trim(line)).0 == "enabled"@ ==> refresh_step((c, in_section), line).0
            == (RefreshRateConfig { enabled: key_value(trim(line)).1 == "true"@, ..c }),
        refresh_step((c, in_section), line).1 == in_section,
{
    reveal_strlit("[refresh_rate]");
    reveal_strlit("[");
    reveal_strlit("battery");
    reveal_strlit("balanced");
    reveal_strlit("performance");
    reveal_strlit("enabled");
    assert("battery"@[2] != "balanced"@[2]);
    assert("battery"@[0] != "performance"@[0]);
    assert("balanced"@[0] != "performance"@[0]);
    assert("enabled"@[0] != "battery"@[0]);
    assert("enabled"@[0] != "balanced"@[0]);
    assert("enabled"@[0] != "performance"@[0]);
    if trim(line) == "[refresh_rate]"@ {
        assert(trim(line).subrange(0, 1) =~= "["@);
    }
}

/// The refresh rate settings after the first `k` lines.
pub open spec fn refresh_fold(ls: Seq<Seq<char>>, k: int) -> (RefreshRateConfig, bool)
    decreases k,
{
    if k <= 0 {
        (default_refresh_rate_config(), false)
    } else {
        refresh_step(refresh_fold(ls, k - 1), ls[k - 1])
    }
}

fn key_value_chars(t: &Vec<char>) -> (r: (Vec<char>, Vec<char>))
    ensures
        (r.0@, r.1@) == key_value(t@),
{
    match split_once_chars(t, '=') {
        Some((k, v)) => (trim_chars(&k), trim_chars(&v)),
        None => (trim_chars(t), Vec::new()),
    }
}

fn refresh_line(c: &mut RefreshRateConfig, in_section: &mut bool, line: &Vec<char>)
    ensures
        (*final(c), *final(in_section)) == refresh_step((*old(c), *old(in_section)), line@),
{
    let t = trim_chars(line);
    if eq_lit(&t, "[refresh_rate]") {
        *in_section = true;
    } else if starts_with_chars(&t, &chars_of("[")) {
        *in_section = false;
    } else if *in_section && has_char(&t, '=') {
        let (key, value) = key_value_chars(&t);
        if eq_lit(&key, "enabled") {
            c.enabled = eq_lit(&value, "true");
        } else if eq_lit(&key, "battery") {
            if let Some(hz) = parse_u32_chars(&value) {
                c.battery = hz;
            }
        } else if eq_lit(&key, "balanced") {
            if let Some(hz) = parse_u32_chars(&value) {
                c.balanced = hz;
            }
        } else if eq_lit(&key, "performance") {
            if let Some(hz) = parse_u32_chars(&value) {
                c.performance = hz;
            }
        }
    }
}

/// The refresh rates to use per profile; `content` is the settings file, `None` when it
/// cannot be read, and then the defaults hold.
pub fn load_refresh_rate_config(content: Option<&str>) -> (c: RefreshRateConfig)
    ensures
        c == match content {
            Some(text) => refresh_fold(lines(text@), lines(text@).len() as int).0,
            None => default_refresh_rate_config(),
        },
{
    let text = match content {
        Some(c) => c,
        None => return RefreshRateConfig::default(),
    };
    let ls = lines_chars(&chars_of(text));
    let ghost all = lines(text@);
    let mut c = RefreshRateConfig::default();
    let mut in_section = false;
    let mut i: usize = 0;
    while i < ls.len()
        invariant
            i <= ls@.len(),
            crate::text::views(ls@) == all,
            content == Some(text),
            all == lines(text@),
            (c, in_section) == refresh_fold(all, i as int),
        decreases ls@.len() - i,
    {
        assert(all[i as int] == ls@[i as int]@);
        refresh_line(&mut c, &mut in_section, &ls[i]);
        i = i + 1;
    }
    c
}

/// What the `[display_modes]` section has given so far: the section flag, `enabled`, and
/// for AC and for battery the mode string, resolution and refresh rate.
pub struct DisplayModeFields {
    pub in_section: bool,
    pub enabled: bool,
    pub ac_mode: Option<Seq<char>>,
    pub ac_resolution: Option<Seq<char>>,
    pub ac_refresh_rate: Option<u32>,
    pub battery_mode: Option<Seq<char>>,
    pub battery_resolution: Option<Seq<char>>,
    pub battery_refresh_rate: Option<u32>,
}

pub open spec fn no_display_fields() -> DisplayModeFields {
    DisplayModeFields {
        in_section: false,
        enabled: false,
        ac_mode: None,
        ac_resolution: None,
        ac_refresh_rate: None,
        battery_mode: None,
        battery_resolution: None,
        battery_refresh_rate: None,
    }
}

/// One line of the settings file applied to the display mode fields; values lose their
/// surrounding double quotes.
pub open spec fn display_step(f: DisplayModeFields, line: Seq<char>) -> DisplayModeFields {
    let t = trim(line);
    if t == "[display_modes]"@ {
        DisplayModeFields { in_section: true, ..f }
    } else if starts_with(t, "["@) {
        DisplayModeFields { in_section: false, ..f }
    } else if f.in_section && t.contains('=') {
        let key = key_value(t).0;
        let value = trim_matches(key_value(t).1, '"');
        if key == "enabled"@ {
            DisplayModeFields { enabled: value == "true"@, ..f }
        } else if key == "ac_mode"@ {
            DisplayModeFields { ac_mode: Some(value), ..f }
        } else if key == "ac_resolution"@ {
            DisplayModeFields { ac_resolution: Some(value), ..f }
        } else if key == "ac_refresh_rate"@ {
            match parse_u32(value) {
                Some(hz) => DisplayModeFields { ac_refresh_rate: Some(hz), ..f },
                None => f,
            }
        } else if key == "battery_mode"@ {
            DisplayModeFields { battery_mode: Some(value), ..f }
        } else if key == "battery_resolution"@ {
            DisplayModeFields { battery_resolution: Some(value), ..f }
        } else if key == "battery_refresh_rate"@ {
            match parse_u32(value) {
                Some(hz) => DisplayModeFields { battery_refresh_rate: Some(hz), ..f },
                None => f,
            }
        } else {
            f
        }
    } else {
        f
    }
}

/// A `key = value` line inside the `[display_modes]` section sets the field of that key
/// and no other, for the AC side from the `ac_` keys and for the battery side from the
/// `battery_` keys, the value without its quotes; outside the section nothing changes.
pub proof fn lemma_display_line_sets_its_key(f: DisplayModeFields, line: Seq<char>)
    requires
        !starts_with(trim(line), "["@),
        trim(line).contains('='),
    ensures
        !f.in_section ==> display_step(f, line) == f,
        f.in_section && key_value(trim(line)).0 == "ac_mode"@ ==> display_step(f, line) == (
        DisplayModeFields { ac_mode: Some(trim_matches(key_value(trim(line)).1, '"')), ..f }),
        f.in_section && key_value(trim(line)).0 == "battery_mode"@ ==> display_step(f, line) == (
        DisplayModeFields { battery_mode: Some(trim_matches(key_value(trim(line)).1, '"')), ..f }),
        f.in_section && key_value(trim(line)).0 == "ac_resolution"@ ==> display_step(f, line) == (
        DisplayModeFields { ac_resolution: Some(trim_matches(key_value(trim(line)).1, '"')), ..f }),
        f.in_section && key_value(trim(line)).0 == "battery_resolution"@ ==> display_step(f, line) == (
        DisplayModeFields { battery_resolution: Some(trim_matches(key_value(trim(line)).1, '"')), ..f }),
        f.in_section && key_value(trim(line)).0 == "ac_refresh_rate"@ ==> display_step(f, line).ac_refresh_rate
            == (match parse_u32(trim_matches(key_value(trim(line)).1, '"')) {
            Some(hz) => Some(hz),
            None => f.ac_refresh_rate,
        }),
        f.in_section && key_value(trim(line)).0 == "battery_refresh_rate"@ ==> display_step(
            f,
            line,
        ).battery_refresh_rate == (match parse_u32(trim_matches(key_value(trim(line)).1, '"')) {
            Some(hz) => Some(hz),
            None => f.battery_refresh_rate,
        }),
        f.in_section && key_value(trim(line)).0 == "ac_refresh_rate"@ ==> display_step(f, line).battery_refresh_rate
            == f.battery_refresh_rate,
        f.in_section && key_value(trim(line)).0 == "battery_refresh_rate"@ ==> display_step(
            f,
            line,
        ).ac_refresh_rate == f.ac_refresh_rate,
        display_step(f, line).in_section == f.in_section,
{
    reveal_strlit("[display_modes]");
    reveal_strlit("[");
    reveal_strlit("enabled");
    reveal_strlit("ac_mode");
    reveal_strlit("ac_resolution");
    reveal_strlit("ac_refresh_rate");
    reveal_strlit("battery_mode");
    reveal_strlit("battery_resolution");
    reveal_strlit("battery_refresh_rate");
    assert("enabled"@[0] != "ac_mode"@[0]);
    assert("ac_mode"@.len() == 7 && "ac_resolution"@.len() == 13 && "ac_refresh_rate"@.len() == 15);
    assert("battery_mode"@.len() == 12 && "battery_resolution"@.len() == 18);
    assert("battery_refresh_rate"@.len() == 20 && "enabled"@.len() == 7);
    if trim(line) == "[display_modes]"@ {
        assert(trim(line).subrange(0, 1) =~= "["@);
    }
}

/// The mode a side asks for: its mode string when it has one, whatever else it says;
/// else its resolution and refresh rate, when both are there and the resolution reads.
pub proof fn lemma_mode_string_first(mode: Option<Seq<char>>, res: Option<Seq<char>>, hz: Option<u32>)
    ensures
        mode matches Some(m) ==> mode_from_fields(mode, res, hz) == Some(ModeSpecView::ModeString(m)),
        mode is None && (res is None || hz is None) ==> mode_from_fields(mode, res, hz) is None,
        mode is None ==> (mode_from_fields(mode, res, hz) matches Some(ModeSpecView::ResolutionAndRate(w, h, r))
            ==> hz == Some(r) && (res matches Some(t) && parse_resolution(t) == Some((w, h)))),
{
}

pub open spec fn display_fold(ls: Seq<Seq<char>>, k: int) -> DisplayModeFields
    decreases k,
{
    if k <= 0 {
        no_display_fields()
    } else {
        display_step(display_fold(ls, k - 1), ls[k - 1])
    }
}

/// A resolution `WIDTHxHEIGHT`: exactly one `x`, with a number on each side.
pub open spec fn parse_resolution(res: Seq<char>) -> Option<(u32, u32)> {
    match split_once(res, 'x') {
        Some((w, h)) => if !h.contains('x') && parse_u32(w) is Some && parse_u32(h) is Some {
            Some((parse_u32(w)->0, parse_u32(h)->0))
        } else {
            None
        },
        None => None,
    }
}

/// The mode a side of the settings asks for: the mode string when there is one, else the
/// resolution and refresh rate when both are there and the resolution reads.
pub open spec fn mode_from_fields(
    mode: Option<Seq<char>>,
    res: Option<Seq<char>>,
    hz: Option<u32>,
) -> Option<ModeSpecView> {
    match mode {
        Some(m) => Some(ModeSpecView::ModeString(m)),
        None => match (res, hz) {
            (Some(r), Some(hz)) => match parse_resolution(r) {
                Some((w, h)) => Some(ModeSpecView::ResolutionAndRate(w, h, hz)),
                None => None,
            },
            _ => None,
        },
    }
}

/// The exec form of `DisplayModeFields`.
struct DisplayFields {
    in_section: bool,
    enabled: bool,
    ac_mode: Option<Vec<char>>,
    ac_resolution: Option<Vec<char>>,
    ac_refresh_rate: Option<u32>,
    battery_mode: Option<Vec<char>>,
    battery_resolution: Option<Vec<char>>,
    battery_refresh_rate: Option<u32>,
}

spec fn opt_view(o: Option<Vec<char>>) -> Option<Seq<char>> {
    match o {
        Some(v) => Some(v@),
        None => None,
    }
}

impl DisplayFields {
    spec fn view(&self) -> DisplayModeFields {
        DisplayModeFields {
            in_section: self.in_section,
            enabled: self.enabled,
            ac_mode: opt_view(self.ac_mode),
            ac_resolution: opt_view(self.ac_resolution),
            ac_refresh_rate: self.ac_refresh_rate,
            battery_mode: opt_view(self.battery_mode),
            battery_resolution: opt_view(self.battery_resolution),
            battery_refresh_rate: self.battery_refresh_rate,
        }
    }
}

fn display_line(f: &mut DisplayFields, line: &Vec<char>)
    ensures
        final(f).view() == display_step(old(f).view(), line@),
{
    let t = trim_chars(line);
    if eq_lit(&t, "[display_modes]") {
        f.in_section = true;
    } else if starts_with_chars(&t, &chars_of("[")) {
        f.in_section = false;
    } else if f.in_section && has_char(&t, '=') {
        let (key, raw) = key_value_chars(&t);
        let value = trim_matches_chars(&raw, '"');
        if eq_lit(&key, "enabled") {
            f.enabled = eq_lit(&value, "true");
        } else if eq_lit(&key, "ac_mode") {
            f.ac_mode = Some(value);
        } else if eq_lit(&key, "ac_resolution") {
            f.ac_resolution = Some(value);
        } else if eq_lit(&key, "ac_refresh_rate") {
            if let Some(hz) = parse_u32_chars(&value) {
                f.ac_refresh_rate = Some(hz);
            }
        } else if eq_lit(&key, "battery_mode") {
            f.battery_mode = Some(value);
        } else if eq_lit(&key, "battery_resolution") {
            f.battery_resolution = Some(value);
        } else if eq_lit(&key, "battery_refresh_rate") {
            if let Some(hz) = parse_u32_chars(&value) {
                f.battery_refresh_rate = Some(hz);
            }
        }
    }
}

fn parse_resolution_chars(res: &Vec<char>) -> (r: Option<(u32, u32)>)
    ensures
        r == parse_resolution(res@),
{
    match split_once_chars(res, 'x') {
        Some((w, h)) => {
            if has_char(&h, 'x') {
                return None;
            }
            match (parse_u32_chars(&w), parse_u32_chars(&h)) {
                (Some(wv), Some(hv)) => Some((wv, hv)),
                _ => None,
            }
        },
        None => None,
    }
}

fn mode_from(mode: &Option<Vec<char>>, res: &Option<Vec<char>>, hz: Option<u32>) -> (r: Option<
    ModeSpec,
>)
    ensures
        mode_view(r) == mode_from_fields(opt_view(*mode), opt_view(*res), hz),
{
    match mode {
        Some(m) => Some(ModeSpec::ModeString(string_of(m))),
        None => match (res, hz) {
            (Some(r), Some(hz)) => match parse_resolution_chars(r) {
                Some((w, h)) => Some(ModeSpec::ResolutionAndRate(w, h, hz)),
                None => None,
            },
            _ => None,
        },
    }
}

/// The display modes to switch to on AC and on battery; `content` is the settings file,
/// `None` when it cannot be read, and then switching is off with no modes.
pub fn load_display_mode_config(content: Option<&str>) -> (c: DisplayModeConfig)
    ensures
        match content {
            Some(text) => {
                let f = display_fold(lines(text@), lines(text@).len() as int);
                &&& c.enabled == f.enabled
                &&& mode_view(c.ac_mode) == mode_from_fields(
                    f.ac_mode,
                    f.ac_resolution,
                    f.ac_refresh_rate,
                )
                &&& mode_view(c.battery_mode) == mode_from_fields(
                    f.battery_mode,
                    f.battery_resolution,
                    f.battery_refresh_rate,
                )
            },
            None => !c.enabled && c.ac_mode is None && c.battery_mode is None,
        },
{
    let text = match content {
        Some(c) => c,
        None => return DisplayModeConfig::default(),
    };
    let ls = lines_chars(&chars_of(text));
    let ghost all = lines(text@);
    let mut f = DisplayFields {
        in_section: false,
        enabled: false,
        ac_mode: None,
        ac_resolution: None,
        ac_refresh_rate: None,
        battery_mode: None,
        battery_resolution: None,
        battery_refresh_rate: None,
    };
    let mut i: usize = 0;
    while i < ls.len()
        invariant
            i <= ls@.len(),
            crate::text::views(ls@) == all,
            content == Some(text),
            all == lines(text@),
            f.view() == display_fold(all, i as int),
        decreases ls@.len() - i,
    {
        assert(all[i as int] == ls@[i as int]@);
        display_line(&mut f, &ls[i]);
        i = i + 1;
    }
    DisplayModeConfig {
        enabled: f.enabled,
        ac_mode: mode_from(&f.ac_mode, &f.ac_resolution, f.ac_refresh_rate),
        battery_mode: mode_from(&f.battery_mode, &f.battery_resolution, f.battery_refresh_rate),
    }
}

} // verus!
