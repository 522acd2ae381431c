//! `charge-thresholds`: lists the charge profiles, or sets a profile or thresholds, and
//! prints the thresholds in force.
use crate::charge_thresholds::{
    charge_profiles, get_charge_profiles, profiles_view, profile_named, profile_with_thresholds, ChargeProfile,
};
use crate::text::{chars_of, decimal, lemma_string_views_push, push_decimal, push_str, string_of, string_views};
use vstd::prelude::*;

verus! {

/// Set thresholds for battery charging.
#[derive(Clone, Debug)]
pub struct Command {
    pub subcommand: Option<Subcommand>,
}

/// The charge threshold subcommands.
#[derive(Clone, Debug)]
pub enum Subcommand {
    /// List profiles
    List,
    /// Set the profile
    SetProfile { name: String },
    /// Set charge thresholds
    SetThresholds { start: u8, end: u8 },
}

/// The names a profile can be set by: the ids of the charge profiles, in order.
pub fn possible_profile_names() -> (v: Vec<String>)
    ensures
        v@.len() == charge_profiles().len(),
        forall|i: int| 0 <= i < v@.len() ==> #[trigger] v@[i]@ == charge_profiles()[i].id,
{
    let profiles = get_charge_profiles();
    assert(forall|j: int| 0 <= j < profiles@.len() ==> #[trigger] profiles@[j]@ == profiles_view(profiles@)[j]);
    let mut v: Vec<String> = Vec::new();
    let mut i: usize = 0;
    while i < profiles.len()
        invariant
            i <= profiles@.len(),
            profiles@.len() == charge_profiles().len(),
            forall|j: int| 0 <= j < profiles@.len() ==> #[trigger] profiles@[j]@ == charge_profiles()[j],
            v@.len() == i,
            forall|j: int| 0 <= j < i ==> #[trigger] v@[j]@ == charge_profiles()[j].id,
        decreases profiles@.len() - i,
    {
        let id = string_of(&chars_of(profiles[i].id.as_str()));
        assert(id@ == profiles@[i as int]@.id);
        v.push(id);
        i = i + 1;
    }
    v
}

/// What a charge threshold command does.
#[derive(Clone, Copy, Debug, PartialEq, Eq, Structural)]
pub enum ChargeAction {
    /// Print the profiles.
    List,
    /// Set these thresholds, then print the thresholds in force.
    SetThresholds(u8, u8),
}

impl Command {
    /// The action, given the profiles the daemon offers: listing them without a
    /// subcommand; for a profile, its thresholds; `None` for a profile not offered.
    pub fn run(&self, profiles: &Vec<ChargeProfile>) -> (a: Option<ChargeAction>)
        ensures
            match self.subcommand {
                None => a == Some(ChargeAction::List),
                Some(Subcommand::List) => a == Some(ChargeAction::List),
                Some(Subcommand::SetThresholds { start, end }) => a == Some(ChargeAction::SetThresholds(start, end)),
                Some(Subcommand::SetProfile { name }) => match a {
                    Some(ChargeAction::SetThresholds(s, e)) => exists|i: int|
                        0 <= i < profiles@.len() && profiles@[i].id@ == name@ && (forall|j: int|
                            0 <= j < i ==> profiles@[j].id@ != name@) && profiles@[i].start == s
                            && profiles@[i].end == e,
                    Some(ChargeAction::List) => false,
                    None => forall|j: int| 0 <= j < profiles@.len() ==> profiles@[j].id@ != name@,
                },
            },
    {
        match &self.subcommand {
            None => Some(ChargeAction::List),
            Some(Subcommand::List) => Some(ChargeAction::List),
            Some(Subcommand::SetThresholds { start, end }) => Some(ChargeAction::SetThresholds(*start, *end)),
            Some(Subcommand::SetProfile { name }) => match profile_named(profiles, name.as_str()) {
                Some(i) => Some(ChargeAction::SetThresholds(profiles[i].start, profiles[i].end)),
                None => None,
            },
        }
    }
}

/// The lines that list one profile.
pub open spec fn profile_listing(p: ChargeProfile) -> Seq<Seq<char>> {
    seq![
        p.id@,
        "  Title: "@ + p.title@,
        "  Description: "@ + p.description@,
        "  Start: "@ + decimal(p.start as nat),
        "  End: "@ + decimal(p.end as nat),
    ]
}

/// The lines that list the profiles, in order.
pub open spec fn listing(profiles: Seq<ChargeProfile>) -> Seq<Seq<char>>
    decreases profiles.len(),
{
    if profiles.len() == 0 {
        Seq::empty()
    } else {
        listing(profiles.drop_last()) + profile_listing(profiles.last())
    }
}

fn labelled(label: &str, value: &str) -> (s: String)
    ensures
        s@ == label@ + value@,
{
    let mut t = chars_of(label);
    push_str(&mut t, value);
    string_of(&t)
}

fn labelled_number(label: &str, n: u8) -> (s: String)
    ensures
        s@ == label@ + decimal(n as nat),
{
    let mut t = chars_of(label);
    push_decimal(&mut t, n as u64);
    string_of(&t)
}

fn push_line(lines: &mut Vec<String>, s: String)
    ensures
        string_views(final(lines)@) == string_views(old(lines)@).push(s@),
{
    let ghost before = lines@;
    lines.push(s);
    proof {
        lemma_string_views_push(before, s);
    }
}

pub fn list_lines(profiles: &Vec<ChargeProfile>) -> (lines: Vec<String>)
    ensures
        string_views(lines@) == listing(profiles@),
{
    let mut lines: Vec<String> = Vec::new();
    let mut i: usize = 0;
    while i < profiles.len()
        invariant
            i <= profiles@.len(),
            string_views(lines@) == listing(profiles@.take(i as int)),
        decreases profiles@.len() - i,
    {
        let p = &profiles[i];
        let ghost before = string_views(lines@);
        push_line(&mut lines, p.id.clone());
        push_line(&mut lines, labelled("  Title: ", p.title.as_str()));
        push_line(&mut lines, labelled("  Description: ", p.description.as_str()));
        push_line(&mut lines, labelled_number("  Start: ", p.start));
        push_line(&mut lines, labelled_number("  End: ", p.end));
        proof {
            assert(profiles@.take(i + 1).drop_last() =~= profiles@.take(i as int));
            assert(profiles@.take(i + 1).last() == profiles@[i as int]);
        }
        i = i + 1;
        assert(string_views(lines@) =~= listing(profiles@.take(i as int)));
    }
    assert(profiles@.take(i as int) =~= profiles@);
    lines
}

/// The lines that tell the thresholds in force and the profile they are, if any.
pub open spec fn status(profiles: Seq<ChargeProfile>, start: u8, end: u8, found: Option<int>) -> Seq<Seq<char>> {
    seq![
        match found {
            Some(i) => "Profile: "@ + profiles[i].title@ + " ("@ + profiles[i].id@ + ")"@,
            None => "Profile: Custom"@,
        },
        "Start: "@ + decimal(start as nat),
        "End: "@ + decimal(end as nat),
    ]
}

pub fn status_lines(profiles: &Vec<ChargeProfile>, start: u8, end: u8) -> (lines: Vec<String>)
    ensures
        exists|found: Option<int>|
            string_views(lines@) == status(profiles@, start, end, found) && match found {
                Some(i) => 0 <= i < profiles@.len() && profiles@[i].start == start && profiles@[i].end == end
                    && forall|j: int| 0 <= j < i ==> !(profiles@[j].start == start && profiles@[j].end == end),
                None => forall|j: int|
                    0 <= j < profiles@.len() ==> !(profiles@[j].start == start && profiles@[j].end == end),
            },
{
    let mut lines: Vec<String> = Vec::new();
    let found = profile_with_thresholds(profiles, start, end);
    let ghost g: Option<int> = match found {
        Some(i) => Some(i as int),
        None => None,
    };
    match found {
        Some(i) => {
            let mut t = chars_of("Profile: ");
            push_str(&mut t, profiles[i].title.as_str());
            push_str(&mut t, " (");
            push_str(&mut t, profiles[i].id.as_str());
            push_str(&mut t, ")");
            push_line(&mut lines, string_of(&t));
        },
        None => push_line(&mut lines, string_of(&chars_of("Profile: Custom"))),
    }
    push_line(&mut lines, labelled_number("Start: ", start));
    push_line(&mut lines, labelled_number("End: ", end));
    assert(string_views(lines@) =~= status(profiles@, start, end, g));
    lines
}

} // verus!
