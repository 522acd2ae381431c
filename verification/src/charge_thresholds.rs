//! Battery charge thresholds: the profiles offered, and the checks and writes that set
//! the thresholds.
use crate::sysfs::{write_of, writes_view, SysfsWrite};
use crate::text::{chars_of, decimal, lemma_parse_decimal, parse_unsigned, parse_unsigned_chars, push_decimal, string_of, trim, trim_chars};
use vstd::prelude::*;

verus! {

/// The file of the charge level under which charging starts.
pub const START_THRESHOLD: &'static str = "/sys/class/power_supply/BAT0/charge_control_start_threshold";

/// The file of the charge level at which charging stops.
pub const END_THRESHOLD: &'static str = "/sys/class/power_supply/BAT0/charge_control_end_threshold";

/// A named pair of charge thresholds, in percent.
#[derive(Clone, Debug)]
pub struct ChargeProfile {
    pub id: String,
    pub title: String,
    pub description: String,
    pub start: u8,
    pub end: u8,
}

/// What a charge profile holds, with its texts as characters.
pub struct ChargeProfileView {
    pub id: Seq<char>,
    pub title: Seq<char>,
    pub description: Seq<char>,
    pub start: u8,
    pub end: u8,
}

impl View for ChargeProfile {
    type V = ChargeProfileView;

    open spec fn view(&self) -> ChargeProfileView {
        ChargeProfileView {
            id: self.id@,
            title: self.title@,
            description: self.description@,
            start: self.start,
            end: self.end,
        }
    }
}

pub open spec fn profiles_view(p: Seq<ChargeProfile>) -> Seq<ChargeProfileView> {
    p.map_values(|x: ChargeProfile| x@)
}

/// The profiles offered: full charge, balanced, and maximum lifespan.
pub open spec fn charge_profiles() -> Seq<ChargeProfileView> {
    seq![
        ChargeProfileView {
            id: "full_charge"@,
            title: "Full Charge"@,
            description: "Battery is charged to its full capacity for the longest possible use on battery power. Charging resumes when the battery falls below 96% charge."@,
            start: 90,
            end: 100,
        },
        ChargeProfileView {
            id: "balanced"@,
            title: "Balanced"@,
            description: "Use this threshold when you unplug frequently but don't need the full battery capacity. Charging stops when the battery reaches 90% capacity and resumes when the battery falls below 85%."@,
            start: 86,
            end: 90,
        },
        ChargeProfileView {
            id: "max_lifespan"@,
            title: "Maximum Lifespan"@,
            description: "Use this threshold if you rarely use the system on battery for extended periods. Charging stops when the battery reaches 60% capacity and resumes when the battery falls below 50%."@,
            start: 50,
            end: 60,
        },
    ]
}

/// The offered profiles can all be set: each start lies below its end and no threshold
/// is over 100; they run from the most charge to the longest lifespan, each stopping
/// charging lower than the one before, and the first charges fully.
pub proof fn lemma_charge_profiles_settable()
    ensures
        charge_profiles().len() == 3,
        forall|i: int|
            0 <= i < charge_profiles().len() ==> (#[trigger] charge_profiles()[i]).start
                < charge_profiles()[i].end <= 100,
        forall|i: int, j: int|
            0 <= i < j < charge_profiles().len() ==> (#[trigger] charge_profiles()[j]).end
                < (#[trigger] charge_profiles()[i]).end,
        charge_profiles()[0].end == 100,
        charge_profiles()[0].id == "full_charge"@,
        charge_profiles()[1].id == "balanced"@,
        charge_profiles()[2].id == "max_lifespan"@,
{
}

fn profile(id: &str, title: &str, description: &str, start: u8, end: u8) -> (p: ChargeProfile)
    ensures
        p@ == (ChargeProfileView { id: id@, title: title@, description: description@, start, end }),
{
    ChargeProfile {
        id: string_of(&chars_of(id)),
        title: string_of(&chars_of(title)),
        description: string_of(&chars_of(description)),
        start,
        end,
    }
}

pub fn get_charge_profiles() -> (v: Vec<ChargeProfile>)
    ensures
        profiles_view(v@) == charge_profiles(),
{
    let mut v: Vec<ChargeProfile> = Vec::new();
    v.push(
        profile(
            "full_charge",
            "Full Charge",
            "Battery is charged to its full capacity for the longest possible use on battery power. Charging resumes when the battery falls below 96% charge.",
            90,
            100,
        ),
    );
    v.push(
        profile(
            "balanced",
            "Balanced",
            "Use this threshold when you unplug frequently but don't need the full battery capacity. Charging stops when the battery reaches 90% capacity and resumes when the battery falls below 85%.",
            86,
            90,
        ),
    );
    v.push(
        profile(
            "max_lifespan",
            "Maximum Lifespan",
            "Use this threshold if you rarely use the system on battery for extended periods. Charging stops when the battery reaches 60% capacity and resumes when the battery falls below 50%.",
            50,
            60,
        ),
    );
    assert(profiles_view(v@) =~= charge_profiles());
    v
}

/// Why charge thresholds cannot be read or set.
#[derive(Clone, Copy, Debug, PartialEq, Eq, Structural)]
pub enum ChargeThresholdError {
    /// The firmware has no charge threshold support.
    Unsupported,
    /// A threshold is over 100.
    OutOfRange,
    /// The end threshold is not above the start one.
    Order,
    /// A threshold file does not hold a number from 0 to 255.
    InvalidValue,
}

impl ChargeThresholdError {
    /// The message of the error.
    pub fn message(&self) -> (m: &'static str)
        ensures
            m@ == match *self {
                ChargeThresholdError::Unsupported => "Not running System76 firmware with charge threshold support"@,
                ChargeThresholdError::OutOfRange => "Charge threshold out of range: should be 0-100"@,
                ChargeThresholdError::Order => "Charge end threshold must be strictly greater than start"@,
                ChargeThresholdError::InvalidValue => "Charge threshold is not a number from 0 to 255"@,
            },
    {
        match self {
            ChargeThresholdError::Unsupported => "Not running System76 firmware with charge threshold support",
            ChargeThresholdError::OutOfRange => "Charge threshold out of range: should be 0-100",
            ChargeThresholdError::Order => "Charge end threshold must be strictly greater than start",
            ChargeThresholdError::InvalidValue => "Charge threshold is not a number from 0 to 255",
        }
    }
}

/// A threshold file's value: its text, trimmed, as a decimal `u8`.
pub open spec fn threshold_of(text: Seq<char>) -> Option<u8> {
    match parse_unsigned(trim(text), 10, 255) {
        Some(v) => Some(v as u8),
        None => None,
    }
}

fn parse_threshold(text: &str) -> (r: Option<u8>)
    ensures
        r == threshold_of(text@),
{
    let t = trim_chars(&chars_of(text));
    proof {
        crate::text::lemma_parse_unsigned_range(t@, 10, 255);
    }
    match parse_unsigned_chars(&t, 10, 255) {
        Some(v) => Some(v as u8),
        None => None,
    }
}

/// The thresholds, from whether the machine supports them (firmware and both files)
/// and the texts of the start and end files.
pub fn get_charge_thresholds(supported: bool, start_text: &str, end_text: &str) -> (r: Result<(u8, u8), ChargeThresholdError>)
    ensures
        match r {
            Ok((s, e)) => supported && threshold_of(start_text@) == Some(s) && threshold_of(end_text@) == Some(e),
            Err(ChargeThresholdError::Unsupported) => !supported,
            Err(ChargeThresholdError::InvalidValue) => supported && (threshold_of(start_text@) is None
                || threshold_of(end_text@) is None),
            Err(_) => false,
        },
{
    if !supported {
        return Err(ChargeThresholdError::Unsupported);
    }
    match (parse_threshold(start_text), parse_threshold(end_text)) {
        (Some(s), Some(e)) => Ok((s, e)),
        _ => Err(ChargeThresholdError::InvalidValue),
    }
}

/// The writes that set the thresholds: the end threshold to 100 first, so that the
/// start can be set whatever end the battery had, then the start, then the end.
pub open spec fn threshold_writes(start: u8, end: u8) -> Seq<(Seq<char>, Seq<char>)> {
    seq![
        (END_THRESHOLD@, "100"@),
        (START_THRESHOLD@, decimal(start as nat)),
        (END_THRESHOLD@, decimal(end as nat)),
    ]
}

/// Checks the thresholds and gives the writes that set them: refused on a machine that
/// does not support them, for a threshold over 100, and for an end not above the start.
pub fn set_charge_thresholds(supported: bool, thresholds: (u8, u8)) -> (r: Result<Vec<SysfsWrite>, ChargeThresholdError>)
    ensures
        match r {
            Ok(w) => supported && thresholds.0 <= 100 && thresholds.1 <= 100 && thresholds.0 < thresholds.1
                && writes_view(w@) == threshold_writes(thresholds.0, thresholds.1),
            Err(ChargeThresholdError::Unsupported) => !supported,
            Err(ChargeThresholdError::OutOfRange) => supported && (thresholds.0 > 100 || thresholds.1 > 100),
            Err(ChargeThresholdError::Order) => supported && thresholds.0 <= 100 && thresholds.1 <= 100
                && thresholds.1 <= thresholds.0,
            Err(ChargeThresholdError::InvalidValue) => false,
        },
{
    let (start, end) = thresholds;
    if !supported {
        return Err(ChargeThresholdError::Unsupported);
    } else if start > 100 || end > 100 {
        return Err(ChargeThresholdError::OutOfRange);
    } else if end <= start {
        return Err(ChargeThresholdError::Order);
    }
    let mut w: Vec<SysfsWrite> = Vec::new();
    w.push(write_of(&chars_of(END_THRESHOLD), &chars_of("100")));
    let mut s: Vec<char> = Vec::new();
    push_decimal(&mut s, start as u64);
    w.push(write_of(&chars_of(START_THRESHOLD), &s));
    let mut e: Vec<char> = Vec::new();
    push_decimal(&mut e, end as u64);
    w.push(write_of(&chars_of(END_THRESHOLD), &e));
    assert(writes_view(w@) =~= threshold_writes(start, end));
    Ok(w)
}

/// What setting the thresholds writes reads back as the thresholds: the last text each
/// file is given is read as its threshold.
pub proof fn lemma_thresholds_read_back(start: u8, end: u8)
    requires
        start <= 100,
        end <= 100,
        start < end,
    ensures
        threshold_writes(start, end)[1].0 == START_THRESHOLD@,
        threshold_writes(start, end)[2].0 == END_THRESHOLD@,
        threshold_of(threshold_writes(start, end)[1].1) == Some(start),
        threshold_of(threshold_writes(start, end)[2].1) == Some(end),
{
    lemma_parse_decimal(start as nat, 255);
    lemma_parse_decimal(end as nat, 255);
}

/// The first profile whose thresholds are these.
pub fn profile_with_thresholds(profiles: &Vec<ChargeProfile>, start: u8, end: u8) -> (r: Option<usize>)
    ensures
        match r {
            Some(i) => i < profiles@.len() && profiles@[i as int].start == start && profiles@[i as int].end
                == end && forall|j: int|
                0 <= j < i ==> !(profiles@[j].start == start && profiles@[j].end == end),
            None => forall|j: int|
                0 <= j < profiles@.len() ==> !(profiles@[j].start == start && profiles@[j].end == end),
        },
{
    let mut i: usize = 0;
    while i < profiles.len()
        invariant
            i <= profiles@.len(),
            forall|j: int| 0 <= j < i ==> !(profiles@[j].start == start && profiles@[j].end == end),
        decreases profiles@.len() - i,
    {
        if profiles[i].start == start && profiles[i].end == end {
            return Some(i);
        }
        i = i + 1;
    }
    None
}

/// The first profile named `id`.
pub fn profile_named(profiles: &Vec<ChargeProfile>, id: &str) -> (r: Option<usize>)
    ensures
        match r {
            Some(i) => i < profiles@.len() && profiles@[i as int].id@ == id@ && forall|j: int|
                0 <= j < i ==> profiles@[j].id@ != id@,
            None => forall|j: int| 0 <= j < profiles@.len() ==> profiles@[j].id@ != id@,
        },
{
    let key = string_of(&chars_of(id));
    let mut i: usize = 0;
    while i < profiles.len()
        invariant
            i <= profiles@.len(),
            key@ == id@,
            forall|j: int| 0 <= j < i ==> profiles@[j].id@ != id@,
        decreases profiles@.len() - i,
    {
        if profiles[i].id == key {
            return Some(i);
        }
        i = i + 1;
    }
    None
}

} // verus!
