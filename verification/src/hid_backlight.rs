//! The keyboard backlight of machines whose keyboard controller is a HID device: the
//! feature reports that set its color and brightness.
use crate::text::{chars_of, eq_lit, parse_unsigned, parse_unsigned_chars, trim, trim_chars};
use vstd::prelude::*;

verus! {

/// The kind of backlight a HID device is, by vendor and product.
#[derive(Clone, Copy, Debug, PartialEq, Eq, Structural)]
pub enum HidBacklight {
    /// The light guide of a Launch keyboard (`048d:8297`).
    Lightguide,
    /// A per-key keyboard backlight (`048d:8910`).
    Keyboard,
}

pub fn device_kind(vendor_id: u16, product_id: u16) -> (k: Option<HidBacklight>)
    ensures
        k == (if vendor_id == 0x048d && product_id == 0x8297 {
            Some(HidBacklight::Lightguide)
        } else if vendor_id == 0x048d && product_id == 0x8910 {
            Some(HidBacklight::Keyboard)
        } else {
            None
        }),
{
    if vendor_id == 0x048d && product_id == 0x8297 {
        Some(HidBacklight::Lightguide)
    } else if vendor_id == 0x048d && product_id == 0x8910 {
        Some(HidBacklight::Keyboard)
    } else {
        None
    }
}

/// A brightness from 0 to 255 scaled to `levels` levels, rounding up.
pub open spec fn scaled_brightness(brightness: u8, levels: nat) -> nat {
    ((brightness as nat * levels + 254) / 255) as nat
}

/// The red, green and blue bytes of a `0xRRGGBB` color.
pub open spec fn channels(color: u32) -> (u8, u8, u8) {
    (((color as int / 0x10000) % 0x100) as u8, ((color as int / 0x100) % 0x100) as u8, (color as int
        % 0x100) as u8)
}

fn split_color(color: u32) -> (c: (u8, u8, u8))
    ensures
        c == channels(color),
{
    let r = (color >> 16) as u8;
    let g = (color >> 8) as u8;
    let b = color as u8;
    assert(r == ((color as int / 0x10000) % 0x100) as u8) by (bit_vector)
        requires
            r == (color >> 16) as u8,
    ;
    assert(g == ((color as int / 0x100) % 0x100) as u8) by (bit_vector)
        requires
            g == (color >> 8) as u8,
    ;
    assert(b == (color as int % 0x100) as u8) by (bit_vector)
        requires
            b == color as u8,
    ;
    (r, g, b)
}

/// The colors as the keyboard shows them: on the `bonw15` by System76, green and blue
/// are toned down to match red.
pub open spec fn corrected(c: (u8, u8, u8), vendor: Seq<char>, model: Seq<char>) -> (u8, u8, u8) {
    if vendor == "System76"@ && model == "bonw15"@ {
        (c.0, (c.1 as nat * 0x65 / 0xFF) as u8, (c.2 as nat * 0x60 / 0xFF) as u8)
    } else {
        c
    }
}

/// The reports that set a keyboard: every LED's color, then the brightness out of 10,
/// then the report that replaces the boot effect.
pub open spec fn keyboard_report(brightness: u8, c: (u8, u8, u8), i: int) -> Seq<u8> {
    if 0 <= i < 256 {
        seq![0xCCu8, 0x01u8, i as u8, c.0, c.1, c.2]
    } else if i == 256 {
        seq![0xCCu8, 0x09u8, scaled_brightness(brightness, 10) as u8]
    } else {
        seq![0xCCu8, 0x20u8, 0x01u8]
    }
}

/// The feature reports for a keyboard, given the DMI vendor and model files' texts.
pub fn keyboard(brightness: u8, color: u32, dmi_vendor: &str, dmi_model: &str) -> (reports: Vec<Vec<u8>>)
    ensures
        reports@.len() == 258,
        forall|i: int|
            0 <= i < 258 ==> #[trigger] reports@[i]@ == keyboard_report(
                brightness,
                corrected(channels(color), trim(dmi_vendor@), trim(dmi_model@)),
                i,
            ),
{
    let raw = ((brightness as u16 * 10 + 254) / 255) as u8;
    let (r, g0, b0) = split_color(color);
    let vendor = trim_chars(&chars_of(dmi_vendor));
    let model = trim_chars(&chars_of(dmi_model));
    let (g, b) = if eq_lit(&vendor, "System76") && eq_lit(&model, "bonw15") {
        (((g0 as u16 * 0x65) / 0xFF) as u8, ((b0 as u16 * 0x60) / 0xFF) as u8)
    } else {
        (g0, b0)
    };
    let ghost c = corrected(channels(color), trim(dmi_vendor@), trim(dmi_model@));
    assert(c == (r, g, b));
    let mut reports: Vec<Vec<u8>> = Vec::new();
    let mut led: u16 = 0;
    while led < 256
        invariant
            led <= 256,
            reports@.len() == led,
            c == (r, g, b),
            forall|i: int| 0 <= i < led ==> #[trigger] reports@[i]@ == keyboard_report(brightness, c, i),
        decreases 256 - led,
    {
        let mut rep: Vec<u8> = Vec::new();
        rep.push(0xCC);
        rep.push(0x01);
        rep.push(led as u8);
        rep.push(r);
        rep.push(g);
        rep.push(b);
        assert(rep@ =~= keyboard_report(brightness, c, led as int));
        reports.push(rep);
        led = led + 1;
    }
    let mut rep: Vec<u8> = Vec::new();
    rep.push(0xCC);
    rep.push(0x09);
    rep.push(raw);
    assert(rep@ =~= keyboard_report(brightness, c, 256));
    reports.push(rep);
    let mut rep: Vec<u8> = Vec::new();
    rep.push(0xCC);
    rep.push(0x20);
    rep.push(0x01);
    assert(rep@ =~= keyboard_report(brightness, c, 257));
    reports.push(rep);
    reports
}

/// The feature reports for a light guide: its color, then its brightness out of 4.
pub fn lightguide(brightness: u8, color: u32) -> (reports: Vec<Vec<u8>>)
    ensures
        reports@.len() == 2,
        reports@[0]@ == seq![0xCCu8, 0xB0u8, 0x00u8, 0x00u8, channels(color).0, channels(color).1, channels(color).2],
        reports@[1]@ == seq![0xCCu8, 0xBFu8, scaled_brightness(brightness, 4) as u8],
{
    let raw = ((brightness as u16 * 4 + 254) / 255) as u8;
    let (r, g, b) = split_color(color);
    let mut first: Vec<u8> = Vec::new();
    first.push(0xCC);
    first.push(0xB0);
    first.push(0x00);
    first.push(0x00);
    first.push(r);
    first.push(g);
    first.push(b);
    let mut second: Vec<u8> = Vec::new();
    second.push(0xCC);
    second.push(0xBF);
    second.push(raw);
    let mut reports: Vec<Vec<u8>> = Vec::new();
    reports.push(first);
    reports.push(second);
    assert(reports@[0]@ =~= seq![0xCCu8, 0xB0u8, 0x00u8, 0x00u8, r, g, b]);
    assert(reports@[1]@ =~= seq![0xCCu8, 0xBFu8, raw]);
    reports
}

/// The brightness in the LED's `brightness` file: its text, trimmed, as a `u8`.
pub fn parse_brightness(text: &str) -> (b: Option<u8>)
    ensures
        b == match parse_unsigned(trim(text@), 10, 255) {
            Some(v) => Some(v as u8),
            None => None,
        },
{
    let t = trim_chars(&chars_of(text));
    proof {
        crate::text::lemma_parse_unsigned_range(t@, 10, 255);
    }
    match parse_unsigned_chars(&t, 10, 255) {
        Some(v) => Some(v as u8),
        None => None,
    }
}

/// The color in the LED's `color` file, hexadecimal; white where the file could not be
/// read, as on keyboards without color.
pub fn parse_color(text: Option<&str>) -> (c: Option<u32>)
    ensures
        c == match parse_unsigned(
            trim(
                match text {
                    Some(t) => t@,
                    None => "FFFFFF"@,
                },
            ),
            16,
            u32::MAX as int,
        ) {
            Some(v) => Some(v as u32),
            None => None,
        },
{
    let t = match text {
        Some(t) => trim_chars(&chars_of(t)),
        None => trim_chars(&chars_of("FFFFFF")),
    };
    proof {
        crate::text::lemma_parse_unsigned_range(t@, 16, u32::MAX as int);
    }
    match parse_unsigned_chars(&t, 16, u32::MAX as u64) {
        Some(v) => Some(v as u32),
        None => None,
    }
}


/// The brightness a HID backlight is given spans its levels: none at 0, all of them
/// at 255, and never more than `levels`.
pub proof fn lemma_scaled_brightness_range(brightness: u8, levels: nat)
    ensures
        scaled_brightness(brightness, levels) <= levels,
        scaled_brightness(0, levels) == 0,
        scaled_brightness(255, levels) == levels,
        brightness > 0 ==> scaled_brightness(brightness, levels) >= 1 || levels == 0,
{
    assert(brightness as nat * levels <= 255 * levels) by (nonlinear_arith);
    assert((brightness as nat * levels + 254) / 255 <= levels) by (nonlinear_arith)
        requires
            brightness as nat * levels <= 255 * levels,
    ;
    assert((255 * levels + 254) / 255 == levels) by (nonlinear_arith);
    assert((0 * levels + 254) / 255 == 0) by (nonlinear_arith);
    if brightness > 0 && levels > 0 {
        assert(brightness as nat * levels >= 1) by (nonlinear_arith)
            requires
                brightness > 0,
                levels > 0,
        ;
        assert((brightness as nat * levels + 254) / 255 >= 1) by (nonlinear_arith)
            requires
                brightness as nat * levels >= 1,
        ;
    }
}

} // verus!
